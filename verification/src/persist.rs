//! Validation of a persistence attempt's outcome. Execution of the prepared
//! insert happens outside; this module classifies what came back: success
//! requires the affected-row count to be exactly one, any other count is a
//! logic error, and a failed execution is reported with its diagnostic.

use vstd::prelude::*;
use vstd::string::StringExecFns;

verus! {

/// Why a persistence attempt is reported as failed.
#[derive(Debug, PartialEq, Eq)]
pub enum PersistError {
    /// The underlying execution itself failed; carries the driver's
    /// diagnostic text.
    Execution(String),
    /// Execution nominally succeeded but affected this many rows instead of
    /// exactly one.
    RowCount(u64),
}

/// The decimal digits of `n`, most significant first.
pub open spec fn dec_chars(n: nat) -> Seq<char>
    decreases n,
{
    if n < 10 {
        seq![digit_char(n)]
    } else {
        dec_chars(n / 10).push(digit_char(n % 10))
    }
}

/// The character for one decimal digit.
pub open spec fn digit_char(d: nat) -> char {
    if d == 0 {
        '0'
    } else if d == 1 {
        '1'
    } else if d == 2 {
        '2'
    } else if d == 3 {
        '3'
    } else if d == 4 {
        '4'
    } else if d == 5 {
        '5'
    } else if d == 6 {
        '6'
    } else if d == 7 {
        '7'
    } else if d == 8 {
        '8'
    } else {
        '9'
    }
}

/// The diagnostic text for an affected-row count other than one.
pub open spec fn rowcount_message(n: u64) -> Seq<char> {
    "expected 1, but updated "@ + dec_chars(n as nat) + " rows"@
}

impl PersistError {
    /// The diagnostic text of this failure: the driver's own text for an
    /// execution failure, a fixed sentence naming the count for a row-count
    /// mismatch.
    pub open spec fn diagnostic_spec(&self) -> Seq<char> {
        match self {
            PersistError::Execution(m) => m@,
            PersistError::RowCount(n) => rowcount_message(*n),
        }
    }

    /// Renders the diagnostic text.
    pub fn diagnostic(&self) -> (r: String)
        ensures
            r@ == self.diagnostic_spec(),
    {
        match self {
            PersistError::Execution(m) => m.clone(),
            PersistError::RowCount(n) => {
                let s = String::from_str("expected 1, but updated ");
                let s = s.concat(u64_string(*n).as_str());
                let s = s.concat(" rows");
                s
            },
        }
    }
}

/// Renders `n` in decimal.
pub fn u64_string(n: u64) -> (s: String)
    ensures
        s@ == dec_chars(n as nat),
    decreases n,
{
    let d: u64 = n % 10;
    let digit: &str = if d == 0 {
        "0"
    } else if d == 1 {
        "1"
    } else if d == 2 {
        "2"
    } else if d == 3 {
        "3"
    } else if d == 4 {
        "4"
    } else if d == 5 {
        "5"
    } else if d == 6 {
        "6"
    } else if d == 7 {
        "7"
    } else if d == 8 {
        "8"
    } else {
        "9"
    };
    proof {
        reveal_strlit("0");
        reveal_strlit("1");
        reveal_strlit("2");
        reveal_strlit("3");
        reveal_strlit("4");
        reveal_strlit("5");
        reveal_strlit("6");
        reveal_strlit("7");
        reveal_strlit("8");
        reveal_strlit("9");
        assert(digit@ =~= seq![digit_char(d as nat)]);
    }
    if n < 10 {
        let s = String::from_str(digit);
        proof {
            assert(s@ =~= dec_chars(n as nat));
        }
        s
    } else {
        let prefix = u64_string(n / 10);
        let s = prefix.concat(digit);
        proof {
            assert(s@ =~= dec_chars(n as nat));
        }
        s
    }
}

/// Classifies the outcome of executing the insert: `Ok` exactly when the
/// execution succeeded and affected exactly one row; any other affected-row
/// count is a row-count error carrying the count; an execution failure is
/// passed on with its diagnostic.
pub fn check_execute_outcome(outcome: Result<u64, String>) -> (r: Result<(), PersistError>)
    ensures
        r is Ok <==> (outcome matches Ok(n) && n == 1),
        match outcome {
            Result::Ok(n) => n == 1 || r == Result::<(), PersistError>::Err(
                PersistError::RowCount(n),
            ),
            Result::Err(m) => r == Result::<(), PersistError>::Err(PersistError::Execution(m)),
        },
{
    match outcome {
        Result::Ok(update_count) => if update_count == 1 {
            Result::Ok(())
        } else {
            Result::Err(PersistError::RowCount(update_count))
        },
        Result::Err(e) => Result::Err(PersistError::Execution(e)),
    }
}

} // verus!
