//! The trusted boundary around the ciphertext capability.
//!
//! Every ciphertext of the library carries, beside the real ciphertext, a
//! ghost record of the plaintext it decrypts to and of the key generation it
//! belongs to. The wrappers below are the only places that mint or read that
//! record; everything stated about them is what the capability's own
//! documentation promises.

use vstd::prelude::*;

verus! {

use rayon::iter::IntoParallelRefIterator;
use rayon::iter::ParallelIterator;
use tfhe::prelude::FheDecrypt;
use tfhe::prelude::FheEncrypt;
use tfhe::prelude::FheEq;
use tfhe::prelude::IfThenElse;

/// Holds the capability's 16-bit ciphertext. Its type, `tfhe::FheUint16`,
/// is an alias of a generic struct whose identifier trait is crate-private
/// in tfhe, so the type cannot be declared to the verifier and is held
/// opaquely instead.
#[verifier::external_body]
struct CipherUint16 {
    inner: tfhe::FheUint16,
}

#[verifier::external_type_specification]
#[verifier::external_body]
pub struct ExFheBool(tfhe::FheBool);

#[verifier::external_type_specification]
#[verifier::external_body]
pub struct ExClientKey(tfhe::ClientKey);

#[verifier::external_type_specification]
#[verifier::external_body]
pub struct ExServerKey(tfhe::ServerKey);

#[verifier::external_type_specification]
#[verifier::external_body]
pub struct ExPublicKey(tfhe::PublicKey);

#[verifier::external_type_specification]
#[verifier::external_body]
pub struct ExConfig(tfhe::Config);

/// An opaque ciphertext over the bounded 16-bit unsigned domain, together
/// with a ghost record of the plaintext it decrypts to and of the key
/// generation it belongs to.
pub struct EncryptedValue {
    cipher: CipherUint16,
    plaintext: Ghost<u16>,
    key_gen: Ghost<int>,
}

impl EncryptedValue {
    /// The plaintext this ciphertext decrypts to under its generation's
    /// client key.
    pub closed spec fn plain(&self) -> u16 {
        self.plaintext@
    }

    /// The key generation this ciphertext was produced under.
    pub closed spec fn key_id(&self) -> int {
        self.key_gen@
    }

    /// Relies on `FheUint16`'s `Clone`: the copy is the same ciphertext, so
    /// it decrypts to the same plaintext under the same keys.
    #[verifier::external_body]
    pub fn duplicate(&self) -> (r: Self)
        ensures
            r.plain() == self.plain(),
            r.key_id() == self.key_id(),
    {
        EncryptedValue {
            cipher: CipherUint16 { inner: self.cipher.inner.clone() },
            plaintext: Ghost(arbitrary()),
            key_gen: Ghost(arbitrary()),
        }
    }
}

/// The opaque result of a homomorphic equality test; consumed only by
/// `select`, never decrypted.
pub struct EncryptedBoolean {
    cipher: tfhe::FheBool,
    plaintext: Ghost<bool>,
    key_gen: Ghost<int>,
}

impl EncryptedBoolean {
    /// The truth value this ciphertext decrypts to under its generation's
    /// client key.
    pub closed spec fn plain(&self) -> bool {
        self.plaintext@
    }

    /// The key generation this ciphertext was produced under.
    pub closed spec fn key_id(&self) -> int {
        self.key_gen@
    }
}

/// Relies on tfhe's `ConfigBuilder::default().build()`: the default
/// configuration for the scheme.
#[verifier::external_body]
fn default_config() -> tfhe::Config {
    tfhe::ConfigBuilder::default().build()
}

/// Relies on tfhe's `generate_keys`: a fresh client/server key pair for the
/// given configuration.
#[verifier::external_body]
fn generate_key_pair(config: tfhe::Config) -> (tfhe::ClientKey, tfhe::ServerKey) {
    tfhe::generate_keys(config)
}

/// Relies on tfhe's `PublicKey::new`: the encryption key derived from the
/// client key.
#[verifier::external_body]
fn derive_public_key(client_key: &tfhe::ClientKey) -> tfhe::PublicKey {
    tfhe::PublicKey::new(client_key)
}

/// One key generation of the ciphertext capability: the secret client key,
/// the public encryption key and the evaluation key derived from it, and a
/// ghost identifier that ties ciphertexts to this generation. tfhe
/// dispatches homomorphic operations through a thread-local evaluation key,
/// so every such operation below installs this session's own key for the
/// current thread before computing: the operations stay backed by this
/// session's keys whichever session or thread acted last. The key is held
/// behind a shared pointer, so installing it again is cheap.
pub struct FheSession {
    client_key: tfhe::ClientKey,
    public_key: tfhe::PublicKey,
    server_key: tfhe::ServerKey,
    key_gen: Ghost<int>,
}

impl FheSession {
    /// The key generation this session owns.
    pub closed spec fn key_id(&self) -> int {
        self.key_gen@
    }

    /// Generates fresh keys and derives the public key; the evaluation key
    /// is kept and installed by each homomorphic operation.
    pub fn new() -> (session: FheSession) {
        let config = default_config();
        let (client_key, server_key) = generate_key_pair(config);
        let public_key = derive_public_key(&client_key);
        FheSession { client_key, public_key, server_key, key_gen: Ghost(arbitrary()) }
    }

    /// Relies on tfhe's `FheUint16::encrypt` under the public key, and on
    /// decryption inverting encryption: the fresh ciphertext decrypts to
    /// exactly `value` under this session's client key.
    #[verifier::external_body]
    pub fn encrypt(&self, value: u16) -> (c: EncryptedValue)
        ensures
            c.plain() == value,
            c.key_id() == self.key_id(),
    {
        EncryptedValue {
            cipher: CipherUint16 { inner: tfhe::FheUint16::encrypt(value, &self.public_key) },
            plaintext: Ghost(arbitrary()),
            key_gen: Ghost(arbitrary()),
        }
    }

    /// Relies on tfhe's `FheDecrypt::decrypt` with the matching client key:
    /// it yields the plaintext the ciphertext holds.
    #[verifier::external_body]
    pub fn decrypt(&self, c: &EncryptedValue) -> (r: u16)
        requires
            c.key_id() == self.key_id(),
        ensures
            r == c.plain(),
    {
        c.cipher.inner.decrypt(&self.client_key)
    }

    /// Relies on tfhe's homomorphic addition of `FheUint16`, which is
    /// modular: on overflow it wraps around. The body first installs this
    /// session's evaluation key, through which tfhe dispatches the
    /// operation.
    #[verifier::external_body]
    pub fn add(&self, a: &EncryptedValue, b: &EncryptedValue) -> (r: EncryptedValue)
        requires
            a.key_id() == self.key_id(),
            b.key_id() == self.key_id(),
        ensures
            r.plain() == (a.plain() + b.plain()) % 0x10000,
            r.key_id() == self.key_id(),
    {
        tfhe::set_server_key(self.server_key.clone());
        EncryptedValue {
            cipher: CipherUint16 { inner: &a.cipher.inner + &b.cipher.inner },
            plaintext: Ghost(arbitrary()),
            key_gen: Ghost(arbitrary()),
        }
    }

    /// Relies on tfhe's `FheEq::eq`: an encrypted boolean holding whether
    /// the two plaintexts are equal. The body first installs this session's
    /// evaluation key, through which tfhe dispatches the operation.
    #[verifier::external_body]
    pub fn equals(&self, a: &EncryptedValue, b: &EncryptedValue) -> (r: EncryptedBoolean)
        requires
            a.key_id() == self.key_id(),
            b.key_id() == self.key_id(),
        ensures
            r.plain() == (a.plain() == b.plain()),
            r.key_id() == self.key_id(),
    {
        tfhe::set_server_key(self.server_key.clone());
        EncryptedBoolean {
            cipher: a.cipher.inner.eq(&b.cipher.inner),
            plaintext: Ghost(arbitrary()),
            key_gen: Ghost(arbitrary()),
        }
    }

    /// Relies on tfhe's `IfThenElse::if_then_else` on an encrypted boolean:
    /// the result holds the first plaintext where the condition holds and
    /// the second where it does not, at the same cost either way. The body
    /// first installs this session's evaluation key, through which tfhe
    /// dispatches the operation.
    #[verifier::external_body]
    pub fn select(
        &self,
        condition: &EncryptedBoolean,
        on_true: &EncryptedValue,
        on_false: &EncryptedValue,
    ) -> (r: EncryptedValue)
        requires
            condition.key_id() == self.key_id(),
            on_true.key_id() == self.key_id(),
            on_false.key_id() == self.key_id(),
        ensures
            r.plain() == (if condition.plain() {
                on_true.plain()
            } else {
                on_false.plain()
            }),
            r.key_id() == self.key_id(),
    {
        tfhe::set_server_key(self.server_key.clone());
        EncryptedValue {
            cipher: CipherUint16 {
                inner: condition.cipher.if_then_else(&on_true.cipher.inner, &on_false.cipher.inner),
            },
            plaintext: Ghost(arbitrary()),
            key_gen: Ghost(arbitrary()),
        }
    }

    /// Relies on rayon's parallel iterator: `map` applies its closure to
    /// every element and `collect` preserves index order, so entry `i` of
    /// the result encrypts entry `i` of the input. The closure only calls
    /// this session's `encrypt`.
    #[verifier::external_body]
    pub fn encrypt_all(&self, values: &Vec<u16>) -> (r: Vec<EncryptedValue>)
        ensures
            r@.len() == values@.len(),
            forall|i: int|
                0 <= i < values@.len() ==> (#[trigger] r@[i]).plain() == values@[i]
                    && r@[i].key_id() == self.key_id(),
    {
        values.par_iter().map(|v| self.encrypt(*v)).collect()
    }
}

} // verus!
