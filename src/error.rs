use vstd::prelude::*;
use vstd::string::StringExecFns;
use crate::text::{decimal, push_decimal, push_signed_decimal, signed_decimal};

verus! {

/// Why an offset could not be resolved.
#[derive(Debug, PartialEq, Eq)]
#[non_exhaustive]
pub enum PeriodError {
    /// A negative magnitude was handed to a function that only takes
    /// non-negative ones; `suggestion` names the mirror function.
    NegativeValue { unit: &'static str, suggestion: &'static str, value: u64 },
    /// The magnitude, or the moment it leads to, cannot be represented.
    Overflow { unit: &'static str, value: i64 },
}

/// The absolute value of `value`, as an unsigned number.
pub open spec fn magnitude(value: i64) -> u64 {
    if value < 0 {
        (-(value as int)) as u64
    } else {
        value as u64
    }
}

/// Accepts `value` when it is non-negative; otherwise reports it as a
/// `NegativeValue` for `unit`, suggesting the call `suggestion`.
pub fn validate_non_negative(value: i64, unit: &'static str, suggestion: &'static str) -> (r:
    Result<(), PeriodError>)
    ensures
        value >= 0 ==> r is Ok,
        value < 0 ==> r == Err::<(), PeriodError>(
            PeriodError::NegativeValue { unit, suggestion, value: magnitude(value) },
        ),
{
    if value < 0 {
        let m: u64 = if value == i64::MIN {
            9_223_372_036_854_775_808u64
        } else {
            (-value) as u64
        };
        return Err(PeriodError::NegativeValue { unit, suggestion, value: m });
    }
    Ok(())
}

/// The message that describes an error, e.g.
/// "days must be positive. Did you mean days_from_now(3)?" or
/// "months value 5000000000 is too large".
pub open spec fn message_of(e: PeriodError) -> Seq<char> {
    match e {
        PeriodError::NegativeValue { unit, suggestion, value } => unit@
            + " must be positive. Did you mean "@ + suggestion@ + "("@ + decimal(value as nat)
            + ")?"@,
        PeriodError::Overflow { unit, value } => unit@ + " value "@ + signed_decimal(value as int)
            + " is too large"@,
    }
}

impl PeriodError {
    /// The human-readable message of this error.
    pub fn message(&self) -> (r: String)
        ensures
            r@ == message_of(*self),
    {
        match self {
            PeriodError::NegativeValue { unit, suggestion, value } => {
                let mut s = String::from_str(unit);
                s.append(" must be positive. Did you mean ");
                s.append(suggestion);
                s.append("(");
                push_decimal(&mut s, *value);
                s.append(")?");
                assert(s@ =~= message_of(*self));
                s
            },
            PeriodError::Overflow { unit, value } => {
                let mut s = String::from_str(unit);
                s.append(" value ");
                push_signed_decimal(&mut s, *value);
                s.append(" is too large");
                assert(s@ =~= message_of(*self));
                s
            },
        }
    }
}

} // verus!
