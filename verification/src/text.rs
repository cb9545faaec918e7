//! The wording of progress lines and of errors.

use vstd::prelude::*;
use vstd::string::*;
use crate::orchestrator::{ErrorView, EvictionError, ProgressLine};

verus! {

/// The character of a decimal digit.
pub open spec fn digit(d: nat) -> char {
    if d == 0 {
        '0'
    } else if d == 1 {
        '1'
    } else if d == 2 {
        '2'
    } else if d == 3 {
        '3'
    } else if d == 4 {
        '4'
    } else if d == 5 {
        '5'
    } else if d == 6 {
        '6'
    } else if d == 7 {
        '7'
    } else if d == 8 {
        '8'
    } else {
        '9'
    }
}

/// The decimal numeral of `n`, without leading zeros.
pub open spec fn decimal(n: nat) -> Seq<char>
    decreases n,
{
    if n < 10 {
        seq![digit(n)]
    } else {
        decimal(n / 10).push(digit(n % 10))
    }
}

/// The decimal numeral of `n`, with a minus sign where `n` is negative.
pub open spec fn signed_decimal(n: int) -> Seq<char> {
    if n < 0 {
        seq!['-'] + decimal((-n) as nat)
    } else {
        decimal(n as nat)
    }
}

/// The text of a progress line about the bucket named `bucket`.
pub open spec fn line_text(line: ProgressLine, bucket: Seq<char>) -> Seq<char> {
    match line {
        ProgressLine::DisablingVersioning => "Disabling Bucket Versioning if enabled"@,
        ProgressLine::CollectingObjects => "Collecting objects to delete"@,
        ProgressLine::DeletingObjects { count } => "Deleting "@ + decimal(count as nat)
            + " objects ..."@,
        ProgressLine::DeletedObjects { count } => "Successfully deleted "@ + decimal(count as nat)
            + " objects."@,
        ProgressLine::DeletingVersions => "Deleting object versions ..."@,
        ProgressLine::DeletedVersions { successful, failed } => "Successfully deleted "@ + decimal(
            successful as nat,
        ) + " object versions. "@ + if failed > 0 {
            "Failed deleting "@ + decimal(failed as nat) + " versioned objects"@
        } else {
            Seq::empty()
        },
        ProgressLine::DeletingBucket => "Deleting the bucket "@ + bucket + "."@,
        ProgressLine::BucketDeleted => "Bucket "@ + bucket + " deleted successfully."@,
    }
}

/// The message of an error: the error code of the storage service where a
/// call failed with one, else a sentence that says what went wrong.
pub open spec fn error_text(error: ErrorView) -> Seq<char> {
    match error {
        ErrorView::Enumeration(failure) => match failure.code {
            Some(code) => code,
            None => "The listing call failed."@,
        },
        ErrorView::VersionedEvictionIncomplete { .. } => "Failed deleting all object versions."@,
        ErrorView::BucketNotEmpty(residual) =>
            "There were still objects left in the bucket. Failed to delete "@ + signed_decimal(
            residual.count as int,
        ) + " objects."@,
        ErrorView::BucketDeletionFailed(failure) => match failure.code {
            Some(code) => code,
            None => "The bucket could not be deleted."@,
        },
    }
}

/// The text of one decimal digit.
fn digit_text(d: u64) -> (s: &'static str)
    requires
        d < 10,
    ensures
        s@ == seq![digit(d as nat)],
{
    proof {
        reveal_strlit("0");
        reveal_strlit("1");
        reveal_strlit("2");
        reveal_strlit("3");
        reveal_strlit("4");
        reveal_strlit("5");
        reveal_strlit("6");
        reveal_strlit("7");
        reveal_strlit("8");
        reveal_strlit("9");
    }
    let s = if d == 0 {
        "0"
    } else if d == 1 {
        "1"
    } else if d == 2 {
        "2"
    } else if d == 3 {
        "3"
    } else if d == 4 {
        "4"
    } else if d == 5 {
        "5"
    } else if d == 6 {
        "6"
    } else if d == 7 {
        "7"
    } else if d == 8 {
        "8"
    } else {
        "9"
    };
    assert(s@ =~= seq![digit(d as nat)]);
    s
}

/// Writes `n` as a decimal numeral.
pub fn decimal_text(n: u64) -> (s: String)
    ensures
        s@ == decimal(n as nat),
    decreases n,
{
    if n < 10 {
        String::from_str(digit_text(n))
    } else {
        let mut s = decimal_text(n / 10);
        s.append(digit_text(n % 10));
        assert(s@ =~= decimal(n as nat / 10).push(digit(n as nat % 10)));
        s
    }
}

/// Writes `n` as a decimal numeral, with a minus sign where it is negative.
pub fn signed_decimal_text(n: i32) -> (s: String)
    ensures
        s@ == signed_decimal(n as int),
{
    if n < 0 {
        proof {
            reveal_strlit("-");
        }
        let magnitude: u64 = (-(n as i64)) as u64;
        let mut s = String::from_str("-");
        assert(s@ =~= seq!['-']);
        s.append(decimal_text(magnitude).as_str());
        s
    } else {
        decimal_text(n as u64)
    }
}

impl ProgressLine {
    /// The line as text, about the bucket named `bucket`.
    pub fn text(&self, bucket: &str) -> (s: String)
        ensures
            s@ == line_text(*self, bucket@),
    {
        match self {
            ProgressLine::DisablingVersioning => String::from_str(
                "Disabling Bucket Versioning if enabled",
            ),
            ProgressLine::CollectingObjects => String::from_str("Collecting objects to delete"),
            ProgressLine::DeletingObjects { count } => {
                let mut s = String::from_str("Deleting ");
                s.append(decimal_text(*count as u64).as_str());
                s.append(" objects ...");
                s
            },
            ProgressLine::DeletedObjects { count } => {
                let mut s = String::from_str("Successfully deleted ");
                s.append(decimal_text(*count as u64).as_str());
                s.append(" objects.");
                s
            },
            ProgressLine::DeletingVersions => String::from_str("Deleting object versions ..."),
            ProgressLine::DeletedVersions { successful, failed } => {
                let mut s = String::from_str("Successfully deleted ");
                s.append(decimal_text(*successful as u64).as_str());
                s.append(" object versions. ");
                let ghost head = s@;
                if *failed > 0 {
                    s.append("Failed deleting ");
                    s.append(decimal_text(*failed as u64).as_str());
                    s.append(" versioned objects");
                    assert(s@ =~= head + ("Failed deleting "@ + decimal(*failed as nat)
                        + " versioned objects"@));
                } else {
                    assert(s@ =~= head + Seq::<char>::empty());
                }
                s
            },
            ProgressLine::DeletingBucket => {
                let mut s = String::from_str("Deleting the bucket ");
                s.append(bucket);
                s.append(".");
                s
            },
            ProgressLine::BucketDeleted => {
                let mut s = String::from_str("Bucket ");
                s.append(bucket);
                s.append(" deleted successfully.");
                s
            },
        }
    }
}

impl EvictionError {
    /// The error as a message for the user.
    pub fn message(&self) -> (s: String)
        ensures
            s@ == error_text(self@),
    {
        match self {
            EvictionError::Enumeration(error) => match &error.code {
                Some(code) => code.clone(),
                None => String::from_str("The listing call failed."),
            },
            EvictionError::VersionedEvictionIncomplete { .. } => String::from_str(
                "Failed deleting all object versions.",
            ),
            EvictionError::BucketNotEmpty(residual) => {
                let mut s = String::from_str(
                    "There were still objects left in the bucket. Failed to delete ",
                );
                s.append(signed_decimal_text(residual.count).as_str());
                s.append(" objects.");
                s
            },
            EvictionError::BucketDeletionFailed(failure) => match &failure.code {
                Some(code) => code.clone(),
                None => String::from_str("The bucket could not be deleted."),
            },
        }
    }
}

} // verus!
