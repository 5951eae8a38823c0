//! Validation of a candidate index, the computing half of the interactive
//! prompt: deciding whether a line of text names an index the evaluators
//! accept, and which error to report when it does not.

use vstd::prelude::*;

verus! {

/// Why a candidate index was rejected.
#[derive(Clone, Copy, Debug, PartialEq, Eq, Structural)]
pub enum InputError {
    /// The text does not name an unsigned number: recoverable, the caller
    /// prompts again.
    InputParse,
    /// The text names a number above the largest supported index, which the
    /// evaluators would silently answer with a stale value.
    DomainBoundExceeded,
}

/// Whether the bytes are a non-empty string of decimal digits.
pub open spec fn is_decimal(text: Seq<u8>) -> bool {
    text.len() > 0 && forall|i: int| 0 <= i < text.len() ==> 48 <= #[trigger] text[i] <= 57
}

/// The number a string of decimal digits names.
pub open spec fn decimal_value(text: Seq<u8>) -> int
    decreases text.len(),
{
    if text.len() == 0 {
        0
    } else {
        decimal_value(text.drop_last()) * 10 + (text.last() - 48)
    }
}

/// The digit part of a candidate numeral: one leading `+` sign, which
/// unsigned parsing accepts, is not part of it.
pub open spec fn digits_of(text: Seq<u8>) -> Seq<u8> {
    if text.len() > 0 && text[0] == 43 {
        text.skip(1)
    } else {
        text
    }
}

/// Parses a candidate index. Accepts exactly the numerals that unsigned
/// parsing accepts — an optional leading `+` followed by one or more
/// decimal digits — whose value is within the supported range; anything
/// else is rejected with the reason.
pub fn parse_index(text: &[u8]) -> (r: Result<u16, InputError>)
    ensures
        r is Ok <==> is_decimal(digits_of(text@)) && decimal_value(digits_of(text@))
            <= crate::MAX_FIBONACCI_INDEX,
        r is Ok ==> r->Ok_0 == decimal_value(digits_of(text@)),
        r == Err::<u16, InputError>(InputError::InputParse) <==> !is_decimal(digits_of(text@)),
        r == Err::<u16, InputError>(InputError::DomainBoundExceeded) <==> is_decimal(
            digits_of(text@),
        ) && decimal_value(digits_of(text@)) > crate::MAX_FIBONACCI_INDEX,
{
    let has_sign: bool = text.len() > 0 && text[0] == 43;
    let start: usize = if has_sign {
        1
    } else {
        0
    };
    proof {
        assert(digits_of(text@) =~= text@.subrange(start as int, text@.len() as int));
    }
    if text.len() == start {
        return Err(InputError::InputParse);
    }
    // Accumulates the exact value while it fits 16 bits, and saturates at
    // 0x10000 once it no longer can; either way it stays above the bound
    // exactly when the named number does.
    let mut value: u32 = 0;
    let mut i: usize = start;
    while i < text.len()
        invariant
            start < text@.len(),
            start <= i <= text@.len(),
            digits_of(text@) =~= text@.subrange(start as int, text@.len() as int),
            forall|j: int| start <= j < i ==> 48 <= #[trigger] text@[j] <= 57,
            decimal_value(text@.subrange(start as int, i as int)) <= 0xFFFF ==> value
                == decimal_value(text@.subrange(start as int, i as int)),
            decimal_value(text@.subrange(start as int, i as int)) > 0xFFFF ==> value == 0x10000,
            value <= 0x10000,
        decreases text@.len() - i,
    {
        let byte = text[i];
        if byte < 48 || byte > 57 {
            proof {
                assert(digits_of(text@)[i - start] == text@[i as int]);
            }
            return Err(InputError::InputParse);
        }
        let digit: u32 = (byte - 48) as u32;
        let grown: u32 = value * 10 + digit;
        proof {
            assert(text@.subrange(start as int, i + 1).drop_last() =~= text@.subrange(
                start as int,
                i as int,
            ));
            assert(text@.subrange(start as int, i + 1).last() == text@[i as int]);
        }
        if grown > 0xFFFF {
            value = 0x10000;
        } else {
            value = grown;
        }
        i = i + 1;
    }
    proof {
        assert forall|j: int| 0 <= j < digits_of(text@).len() implies 48 <= #[trigger] digits_of(
            text@,
        )[j] <= 57 by {
            assert(digits_of(text@)[j] == text@[j + start]);
        }
    }
    if value > crate::MAX_FIBONACCI_INDEX as u32 {
        Err(InputError::DomainBoundExceeded)
    } else {
        Ok(value as u16)
    }
}

} // verus!
