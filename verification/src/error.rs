use vstd::prelude::*;

verus! {

/// The error that storage backends report.
#[verifier::external_type_specification]
#[verifier::external_body]
pub struct ExIoError(std::io::Error);

/// The error that serde_json reports when it cannot encode or decode a value.
#[verifier::external_type_specification]
#[verifier::external_body]
pub struct ExJsonError(serde_json::Error);

/// Errors of durable task runs.
#[derive(Debug)]
pub enum DuraflowError {
    /// A storage backend failed.
    Io(std::io::Error),
    /// A value could not be encoded or decoded.
    Serialize(serde_json::Error),
    /// The output of the task `key` could not be persisted.
    Persist { key: String, source: std::io::Error },
    /// Anything else, described in words.
    Other(String),
}

/// The text of `a` followed by that of `b`.
pub fn join_text(a: &str, b: &str) -> (s: String)
    ensures
        s@ == a@ + b@,
{
    let mut s = a.to_owned();
    s.append(b);
    s
}

/// Whether `x` displays as `text`: some string that `to_string` can give for
/// `x` reads `text`.
pub open spec fn displays_as<T: core::fmt::Display + ?Sized>(x: &T, text: Seq<char>) -> bool {
    exists|d: String| vstd::string::to_string_from_display_ensures::<T>(x, d) && d@ == text
}

/// Whether `m` is the message of a failure to persist the output of task
/// `key`, caused by `source`: `persist failed for <key>: ` followed by the
/// description of `source`.
pub open spec fn persist_message(key: Seq<char>, source: std::io::Error, m: Seq<char>) -> bool {
    exists|t: Seq<char>| displays_as(&source, t) && m == "persist failed for "@ + key + ": "@ + t
}

/// Whether `m` is the message of `e`: `io error: `, `serialize error: ` or
/// the persist message, each followed by the description of the cause, or
/// the words of `Other` as they are.
pub open spec fn message_is(e: DuraflowError, m: Seq<char>) -> bool {
    match e {
        DuraflowError::Io(x) => exists|t: Seq<char>| displays_as(&x, t) && m == "io error: "@ + t,
        DuraflowError::Serialize(x) => exists|t: Seq<char>|
            displays_as(&x, t) && m == "serialize error: "@ + t,
        DuraflowError::Persist { key, source } => persist_message(key@, source, m),
        DuraflowError::Other(s) => m == s@,
    }
}

impl DuraflowError {
    /// The error as a sentence: `io error: ..`, `serialize error: ..`,
    /// `persist failed for <key>: ..`, or the words of `Other` as they are,
    /// where `..` is the description of the underlying error.
    pub fn message(&self) -> (m: String)
        ensures
            message_is(*self, m@),
    {
        match self {
            DuraflowError::Io(e) => {
                let d = e.to_string();
                let m = join_text("io error: ", d.as_str());
                assert(displays_as(e, d@));
                assert(m@ == "io error: "@ + d@);
                m
            },
            DuraflowError::Serialize(e) => {
                let d = e.to_string();
                let m = join_text("serialize error: ", d.as_str());
                assert(displays_as(e, d@));
                assert(m@ == "serialize error: "@ + d@);
                m
            },
            DuraflowError::Persist { key, source } => {
                let d = source.to_string();
                let head = join_text("persist failed for ", key.as_str());
                let head = join_text(head.as_str(), ": ");
                let m = join_text(head.as_str(), d.as_str());
                assert(displays_as(source, d@));
                assert(m@ == "persist failed for "@ + key@ + ": "@ + d@);
                m
            },
            DuraflowError::Other(s) => s.clone(),
        }
    }
}

/// The message of each error, spelled out: `io error: `, `serialize error: `
/// or `persist failed for <key>: `, each followed by a text that the cause's
/// own `to_string` gives, or the words of `Other` as they are.
pub proof fn law_message_text(e: DuraflowError, m: Seq<char>)
    requires
        message_is(e, m),
    ensures
        match e {
            DuraflowError::Io(x) => exists|d: String|
                vstd::string::to_string_from_display_ensures::<std::io::Error>(&x, d) && m
                    == "io error: "@ + d@,
            DuraflowError::Serialize(x) => exists|d: String|
                vstd::string::to_string_from_display_ensures::<serde_json::Error>(&x, d) && m
                    == "serialize error: "@ + d@,
            DuraflowError::Persist { key, source } => exists|d: String|
                vstd::string::to_string_from_display_ensures::<std::io::Error>(&source, d) && m
                    == "persist failed for "@ + key@ + ": "@ + d@,
            DuraflowError::Other(s) => m == s@,
        },
{
    match e {
        DuraflowError::Io(x) => {
            let t = choose|t: Seq<char>| displays_as(&x, t) && m == "io error: "@ + t;
            let d = choose|d: String|
                vstd::string::to_string_from_display_ensures::<std::io::Error>(&x, d) && d@ == t;
            assert(m == "io error: "@ + d@);
        },
        DuraflowError::Serialize(x) => {
            let t = choose|t: Seq<char>| displays_as(&x, t) && m == "serialize error: "@ + t;
            let d = choose|d: String|
                vstd::string::to_string_from_display_ensures::<serde_json::Error>(&x, d) && d@
                    == t;
            assert(m == "serialize error: "@ + d@);
        },
        DuraflowError::Persist { key, source } => {
            let t = choose|t: Seq<char>|
                displays_as(&source, t) && m == "persist failed for "@ + key@ + ": "@ + t;
            let d = choose|d: String|
                vstd::string::to_string_from_display_ensures::<std::io::Error>(&source, d) && d@
                    == t;
            assert(m == "persist failed for "@ + key@ + ": "@ + d@);
        },
        DuraflowError::Other(s) => {},
    }
}

impl From<std::io::Error> for DuraflowError {
    fn from(e: std::io::Error) -> (r: Self)
        ensures
            r == DuraflowError::Io(e),
    {
        DuraflowError::Io(e)
    }
}

impl vstd::std_specs::convert::FromSpecImpl<std::io::Error> for DuraflowError {
    open spec fn obeys_from_spec() -> bool {
        true
    }

    open spec fn from_spec(v: std::io::Error) -> Self {
        DuraflowError::Io(v)
    }
}

impl From<serde_json::Error> for DuraflowError {
    fn from(e: serde_json::Error) -> (r: Self)
        ensures
            r == DuraflowError::Serialize(e),
    {
        DuraflowError::Serialize(e)
    }
}

impl vstd::std_specs::convert::FromSpecImpl<serde_json::Error> for DuraflowError {
    open spec fn obeys_from_spec() -> bool {
        true
    }

    open spec fn from_spec(v: serde_json::Error) -> Self {
        DuraflowError::Serialize(v)
    }
}

} // verus!
