//! The status codes of gRPC.

use vstd::prelude::*;
use vstd::string::{is_ascii, StringSliceAdditionalSpecFns};
use crate::num::{decimal_ascii, lemma_decimal_roundtrip, spec_parse_u64, IntErrorKind};

verus! {

broadcast use vstd::string::is_ascii_spec_bytes;

/// The status of a finished call.
pub enum GrpcStatus {
    /// OK is returned on success.
    OK,
    /// Canceled indicates the operation was cancelled (typically by the caller).
    Canceled,
    /// Unknown error. An example of where this error may be returned is
    /// if a Status value received from another address space belongs to
    /// an error-space that is not known in this address space. Also
    /// errors raised by APIs that do not return enough error information
    /// may be converted to this error.
    Unknown,
    /// InvalidArgument indicates client specified an invalid argument.
    /// Note that this differs from FailedPrecondition. It indicates arguments
    /// that are problematic regardless of the state of the system
    /// (e.g., a malformed file name).
    InvalidArgument,
    /// DeadlineExceeded means operation expired before completion.
    /// For operations that change the state of the system, this error may be
    /// returned even if the operation has completed successfully.
    DeadlineExceeded,
    /// NotFound means some requested entity (e.g., file or directory) was
    /// not found.
    NotFound,
    /// AlreadyExists means an attempt to create an entity failed because one
    /// already exists.
    AlreadyExists,
    /// PermissionDenied indicates the caller does not have permission to
    /// execute the specified operation.
    PermissionDenied,
    /// ResourceExhausted indicates some resource has been exhausted, perhaps
    /// a per-user quota, or perhaps the entire file system is out of space.
    ResourceExhausted,
    /// FailedPrecondition indicates operation was rejected because the
    /// system is not in a state required for the operation's execution.
    FailedPrecondition,
    /// Aborted indicates the operation was aborted, typically due to a
    /// concurrency issue like sequencer check failures, transaction aborts,
    /// etc.
    Aborted,
    /// OutOfRange means operation was attempted past the valid range.
    /// E.g., seeking or reading past end of file.
    OutOfRange,
    /// Unimplemented indicates operation is not implemented or not
    /// supported/enabled in this service.
    Unimplemented,
    /// Internal errors. Means some invariants expected by underlying
    /// system has been broken.
    Internal,
    /// Unavailable indicates the service is currently unavailable.
    /// This is a most likely a transient condition and may be corrected
    /// by retrying with a backoff.
    Unavailable,
    /// DataLoss indicates unrecoverable data loss or corruption.
    DataLoss,
    /// Unauthenticated indicates the request does not have valid
    /// authentication credentials for the operation.
    Unauthenticated,
}

impl GrpcStatus {
    /// The numeric code of the status.
    pub open spec fn spec_code(self) -> nat {
        match self {
            GrpcStatus::OK => 0,
            GrpcStatus::Canceled => 1,
            GrpcStatus::Unknown => 2,
            GrpcStatus::InvalidArgument => 3,
            GrpcStatus::DeadlineExceeded => 4,
            GrpcStatus::NotFound => 5,
            GrpcStatus::AlreadyExists => 6,
            GrpcStatus::PermissionDenied => 7,
            GrpcStatus::ResourceExhausted => 8,
            GrpcStatus::FailedPrecondition => 9,
            GrpcStatus::Aborted => 10,
            GrpcStatus::OutOfRange => 11,
            GrpcStatus::Unimplemented => 12,
            GrpcStatus::Internal => 13,
            GrpcStatus::Unavailable => 14,
            GrpcStatus::DataLoss => 15,
            GrpcStatus::Unauthenticated => 16,
        }
    }

    /// The code of the status, in ASCII decimal digits, as sent in the
    /// `grpc-status` header.
    pub fn as_str(&self) -> (r: &'static [u8])
        ensures
            r@ == decimal_ascii(self.spec_code()),
    {
        match self {
            GrpcStatus::OK => {
                proof {
                    reveal_strlit("0");
                    assert(is_ascii("0"));
                    assert("0".spec_bytes() =~= decimal_ascii(0));
                }
                "0".as_bytes()
            }
            GrpcStatus::Canceled => {
                proof {
                    reveal_strlit("1");
                    assert(is_ascii("1"));
                    assert("1".spec_bytes() =~= decimal_ascii(1));
                }
                "1".as_bytes()
            }
            GrpcStatus::Unknown => {
                proof {
                    reveal_strlit("2");
                    assert(is_ascii("2"));
                    assert("2".spec_bytes() =~= decimal_ascii(2));
                }
                "2".as_bytes()
            }
            GrpcStatus::InvalidArgument => {
                proof {
                    reveal_strlit("3");
                    assert(is_ascii("3"));
                    assert("3".spec_bytes() =~= decimal_ascii(3));
                }
                "3".as_bytes()
            }
            GrpcStatus::DeadlineExceeded => {
                proof {
                    reveal_strlit("4");
                    assert(is_ascii("4"));
                    assert("4".spec_bytes() =~= decimal_ascii(4));
                }
                "4".as_bytes()
            }
            GrpcStatus::NotFound => {
                proof {
                    reveal_strlit("5");
                    assert(is_ascii("5"));
                    assert("5".spec_bytes() =~= decimal_ascii(5));
                }
                "5".as_bytes()
            }
            GrpcStatus::AlreadyExists => {
                proof {
                    reveal_strlit("6");
                    assert(is_ascii("6"));
                    assert("6".spec_bytes() =~= decimal_ascii(6));
                }
                "6".as_bytes()
            }
            GrpcStatus::PermissionDenied => {
                proof {
                    reveal_strlit("7");
                    assert(is_ascii("7"));
                    assert("7".spec_bytes() =~= decimal_ascii(7));
                }
                "7".as_bytes()
            }
            GrpcStatus::ResourceExhausted => {
                proof {
                    reveal_strlit("8");
                    assert(is_ascii("8"));
                    assert("8".spec_bytes() =~= decimal_ascii(8));
                }
                "8".as_bytes()
            }
            GrpcStatus::FailedPrecondition => {
                proof {
                    reveal_strlit("9");
                    assert(is_ascii("9"));
                    assert("9".spec_bytes() =~= decimal_ascii(9));
                }
                "9".as_bytes()
            }
            GrpcStatus::Aborted => {
                proof {
                    reveal_strlit("10");
                    assert(is_ascii("10"));
                    assert(decimal_ascii(1) == seq![49u8]);
                    assert("10".spec_bytes() =~= decimal_ascii(10));
                }
                "10".as_bytes()
            }
            GrpcStatus::OutOfRange => {
                proof {
                    reveal_strlit("11");
                    assert(is_ascii("11"));
                    assert(decimal_ascii(1) == seq![49u8]);
                    assert("11".spec_bytes() =~= decimal_ascii(11));
                }
                "11".as_bytes()
            }
            GrpcStatus::Unimplemented => {
                proof {
                    reveal_strlit("12");
                    assert(is_ascii("12"));
                    assert(decimal_ascii(1) == seq![49u8]);
                    assert("12".spec_bytes() =~= decimal_ascii(12));
                }
                "12".as_bytes()
            }
            GrpcStatus::Internal => {
                proof {
                    reveal_strlit("13");
                    assert(is_ascii("13"));
                    assert(decimal_ascii(1) == seq![49u8]);
                    assert("13".spec_bytes() =~= decimal_ascii(13));
                }
                "13".as_bytes()
            }
            GrpcStatus::Unavailable => {
                proof {
                    reveal_strlit("14");
                    assert(is_ascii("14"));
                    assert(decimal_ascii(1) == seq![49u8]);
                    assert("14".spec_bytes() =~= decimal_ascii(14));
                }
                "14".as_bytes()
            }
            GrpcStatus::DataLoss => {
                proof {
                    reveal_strlit("15");
                    assert(is_ascii("15"));
                    assert(decimal_ascii(1) == seq![49u8]);
                    assert("15".spec_bytes() =~= decimal_ascii(15));
                }
                "15".as_bytes()
            }
            GrpcStatus::Unauthenticated => {
                proof {
                    reveal_strlit("16");
                    assert(is_ascii("16"));
                    assert(decimal_ascii(1) == seq![49u8]);
                    assert("16".spec_bytes() =~= decimal_ascii(16));
                }
                "16".as_bytes()
            }
        }
    }

    /// The status whose code is `n`; codes past the last give `Unauthenticated`.
    pub open spec fn spec_from_code(n: nat) -> GrpcStatus {
        if n == 0 {
            GrpcStatus::OK
        } else if n == 1 {
            GrpcStatus::Canceled
        } else if n == 2 {
            GrpcStatus::Unknown
        } else if n == 3 {
            GrpcStatus::InvalidArgument
        } else if n == 4 {
            GrpcStatus::DeadlineExceeded
        } else if n == 5 {
            GrpcStatus::NotFound
        } else if n == 6 {
            GrpcStatus::AlreadyExists
        } else if n == 7 {
            GrpcStatus::PermissionDenied
        } else if n == 8 {
            GrpcStatus::ResourceExhausted
        } else if n == 9 {
            GrpcStatus::FailedPrecondition
        } else if n == 10 {
            GrpcStatus::Aborted
        } else if n == 11 {
            GrpcStatus::OutOfRange
        } else if n == 12 {
            GrpcStatus::Unimplemented
        } else if n == 13 {
            GrpcStatus::Internal
        } else if n == 14 {
            GrpcStatus::Unavailable
        } else if n == 15 {
            GrpcStatus::DataLoss
        } else {
            GrpcStatus::Unauthenticated
        }
    }

    /// The name of the status.
    pub open spec fn spec_reason(self) -> Seq<char> {
        match self {
            GrpcStatus::OK => "Ok"@,
            GrpcStatus::Canceled => "Canceled"@,
            GrpcStatus::Unknown => "Unknown"@,
            GrpcStatus::InvalidArgument => "InvalidArgument"@,
            GrpcStatus::DeadlineExceeded => "DeadlineExceeded"@,
            GrpcStatus::NotFound => "NotFound"@,
            GrpcStatus::AlreadyExists => "AlreadyExists"@,
            GrpcStatus::PermissionDenied => "PermissionDenied"@,
            GrpcStatus::ResourceExhausted => "ResourceExhausted"@,
            GrpcStatus::FailedPrecondition => "FailedPrecondition"@,
            GrpcStatus::Aborted => "Aborted"@,
            GrpcStatus::OutOfRange => "OutOfRange"@,
            GrpcStatus::Unimplemented => "Unimplemented"@,
            GrpcStatus::Internal => "Internal"@,
            GrpcStatus::Unavailable => "Unavailable"@,
            GrpcStatus::DataLoss => "DataLoss"@,
            GrpcStatus::Unauthenticated => "Unauthenticated"@,
        }
    }

    /// The name of the status, as sent to clients.
    pub fn reason(&self) -> (r: &'static str)
        ensures
            r@ == self.spec_reason(),
    {
        match self {
            GrpcStatus::OK => "Ok",
            GrpcStatus::Canceled => "Canceled",
            GrpcStatus::Unknown => "Unknown",
            GrpcStatus::InvalidArgument => "InvalidArgument",
            GrpcStatus::DeadlineExceeded => "DeadlineExceeded",
            GrpcStatus::NotFound => "NotFound",
            GrpcStatus::AlreadyExists => "AlreadyExists",
            GrpcStatus::PermissionDenied => "PermissionDenied",
            GrpcStatus::ResourceExhausted => "ResourceExhausted",
            GrpcStatus::FailedPrecondition => "FailedPrecondition",
            GrpcStatus::Aborted => "Aborted",
            GrpcStatus::OutOfRange => "OutOfRange",
            GrpcStatus::Unimplemented => "Unimplemented",
            GrpcStatus::Internal => "Internal",
            GrpcStatus::Unavailable => "Unavailable",
            GrpcStatus::DataLoss => "DataLoss",
            GrpcStatus::Unauthenticated => "Unauthenticated",
        }
    }
}

/// The decimal digits of a number below a hundred.
proof fn lemma_decimal_ascii_small(n: nat)
    requires
        n < 100,
    ensures
        n < 10 ==> decimal_ascii(n) == seq![(48 + n) as u8],
        n >= 10 ==> decimal_ascii(n) == seq![(48 + n / 10) as u8, (48 + n % 10) as u8],
{
    if n >= 10 {
        assert(decimal_ascii(n / 10) == seq![(48 + n / 10) as u8]);
        assert(decimal_ascii(n) =~= seq![(48 + n / 10) as u8, (48 + n % 10) as u8]);
    }
}

/// A status is known again from its code: each status has a code of its
/// own, between 0 and 16.
pub proof fn lemma_code_identifies_status(s: GrpcStatus)
    ensures
        s.spec_code() <= 16,
        GrpcStatus::spec_from_code(s.spec_code()) == s,
{
}

/// Two different statuses are sent as different `grpc-status` values.
pub proof fn lemma_status_text_distinct(a: GrpcStatus, b: GrpcStatus)
    requires
        a != b,
    ensures
        decimal_ascii(a.spec_code()) != decimal_ascii(b.spec_code()),
{
    lemma_code_identifies_status(a);
    lemma_code_identifies_status(b);
    let (x, y) = (a.spec_code(), b.spec_code());
    lemma_decimal_ascii_small(x);
    lemma_decimal_ascii_small(y);
    assert(x != y);
    if x < 10 && y < 10 {
        assert(decimal_ascii(x)[0] != decimal_ascii(y)[0]);
    } else if x >= 10 && y >= 10 {
        if x / 10 == y / 10 {
            assert(x % 10 != y % 10);
            assert(decimal_ascii(x)[1] != decimal_ascii(y)[1]);
        } else {
            assert(decimal_ascii(x)[0] != decimal_ascii(y)[0]);
        }
    } else {
        assert(decimal_ascii(x).len() != decimal_ascii(y).len());
    }
}

/// The `grpc-status` text of a status reads back, as a decimal number, as
/// the code of the status.
pub proof fn lemma_status_text_parses_to_code(s: GrpcStatus)
    ensures
        spec_parse_u64(decimal_ascii(s.spec_code())) == Ok::<u64, IntErrorKind>(s.spec_code() as u64),
{
    lemma_decimal_roundtrip(s.spec_code());
}

/// Each status has a name of its own: two statuses with the same name are
/// the same status.
pub proof fn lemma_reason_identifies_status(a: GrpcStatus, b: GrpcStatus)
    requires
        a.spec_reason() == b.spec_reason(),
    ensures
        a == b,
{
    reveal_strlit("Ok");
    reveal_strlit("Canceled");
    reveal_strlit("Unknown");
    reveal_strlit("InvalidArgument");
    reveal_strlit("DeadlineExceeded");
    reveal_strlit("NotFound");
    reveal_strlit("AlreadyExists");
    reveal_strlit("PermissionDenied");
    reveal_strlit("ResourceExhausted");
    reveal_strlit("FailedPrecondition");
    reveal_strlit("Aborted");
    reveal_strlit("OutOfRange");
    reveal_strlit("Unimplemented");
    reveal_strlit("Internal");
    reveal_strlit("Unavailable");
    reveal_strlit("DataLoss");
    reveal_strlit("Unauthenticated");
    let (x, y) = (a.spec_reason(), b.spec_reason());
    assert(x.len() == y.len() && x[0] == y[0] && x[1] == y[1]);
    match a {
        GrpcStatus::OK => {},
        GrpcStatus::Canceled => {},
        GrpcStatus::Unknown => {},
        GrpcStatus::InvalidArgument => {},
        GrpcStatus::DeadlineExceeded => {},
        GrpcStatus::NotFound => {},
        GrpcStatus::AlreadyExists => {},
        GrpcStatus::PermissionDenied => {},
        GrpcStatus::ResourceExhausted => {},
        GrpcStatus::FailedPrecondition => {},
        GrpcStatus::Aborted => {},
        GrpcStatus::OutOfRange => {},
        GrpcStatus::Unimplemented => {},
        GrpcStatus::Internal => {},
        GrpcStatus::Unavailable => {},
        GrpcStatus::DataLoss => {},
        GrpcStatus::Unauthenticated => {},
    }
}

} // verus!
