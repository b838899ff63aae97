use vstd::prelude::*;

use crate::error::displays_as;
use crate::store::Storage;

verus! {

/// Whether `r` is what `decode` hands back for some string whose text is
/// `text`.
pub open spec fn decoded_from<T, F: Fn(String) -> Option<T>>(
    decode: F,
    text: Seq<char>,
    r: Option<T>,
) -> bool {
    exists|s: String| s@ == text && call_ensures(decode, (s,), r)
}

/// Whether `r` is what a typed read of `key` gives when the store holds
/// `contents`: nothing when the key is absent, else what `decode` makes of
/// the stored text.
pub open spec fn read_outcome<T, F: Fn(String) -> Option<T>>(
    contents: Map<Seq<char>, Seq<char>>,
    key: Seq<char>,
    decode: F,
    r: Option<T>,
) -> bool {
    match contents.get(key) {
        None => r is None,
        Some(text) => decoded_from(decode, text, r),
    }
}

/// Whether `after` is what a write of `text` under `key` leaves of `before`:
/// the text is in place when the write succeeded, and nothing changed when
/// it failed.
pub open spec fn write_effect(
    before: Map<Seq<char>, Seq<char>>,
    after: Map<Seq<char>, Seq<char>>,
    key: Seq<char>,
    text: Seq<char>,
    succeeded: bool,
) -> bool {
    after == (if succeeded {
        before.insert(key, text)
    } else {
        before
    })
}

/// Whether `e` reads `text`: every string that `to_string` gives for `e`
/// reads `text`.
pub open spec fn io_error_reads(e: &std::io::Error, text: Seq<char>) -> bool {
    forall|s: String| vstd::string::to_string_from_display_ensures::<std::io::Error>(e, s) <==> s@
        == text
}

/// Whether storing a value whose encoding came out as `enc` under `key` may
/// take the store from `before` to `after` with the answer `r`. When the
/// value encoded, the answer and the new store are those of the store's own
/// write of the text (for a store that keeps its contents, the text is in
/// place exactly when the write succeeded; a store whose writes all succeed
/// answers `Ok`). When it did not encode, the store is untouched and the
/// answer is an error that reads `serialize error: ` followed by the
/// description of the encoding error.
pub open spec fn encoded_store_effect<S: Storage>(
    before: S,
    after: S,
    key: Seq<char>,
    enc: Result<String, serde_json::Error>,
    r: Result<(), std::io::Error>,
) -> bool {
    match enc {
        Ok(text) => {
            &&& before.write_outcome(&after, key, text@, r)
            &&& S::writes_succeed() ==> r is Ok
            &&& S::keeps_contents() ==> write_effect(
                before.contents(),
                after.contents(),
                key,
                text@,
                r is Ok,
            )
        },
        Err(se) => {
            &&& after == before
            &&& r matches Err(e) && exists|t: Seq<char>|
                displays_as(&se, t) && io_error_reads(&e, "serialize error: "@ + t)
        },
    }
}

/// Whether storing `value`, encoded by `encode`, under `key` may take the
/// store from `before` to `after` with the answer `r`: for what `encode`
/// gives for `value`, as `encoded_store_effect` says.
pub open spec fn store_effect<S: Storage, T, E: Fn(&T) -> Result<String, serde_json::Error>>(
    before: S,
    after: S,
    key: Seq<char>,
    value: &T,
    encode: E,
    r: Result<(), std::io::Error>,
) -> bool {
    exists|enc: Result<String, serde_json::Error>|
        call_ensures(encode, (value,), enc) && encoded_store_effect(before, after, key, enc, r)
}

/// A typed read of a key that the store does not hold gives `None`; of a key
/// that it holds, what `decode` gives for a string reading the stored text.
pub proof fn law_typed_read<T, F: Fn(String) -> Option<T>>(
    contents: Map<Seq<char>, Seq<char>>,
    key: Seq<char>,
    decode: F,
    r: Option<T>,
)
    requires
        read_outcome(contents, key, decode, r),
    ensures
        !contents.contains_key(key) ==> r is None,
        contents.contains_key(key) ==> exists|s: String|
            s@ == contents[key] && call_ensures(decode, (s,), r),
{
}

/// A successful write puts the text in place under its key and leaves every
/// other key; a failed write changes nothing.
pub proof fn law_write_effect(
    before: Map<Seq<char>, Seq<char>>,
    after: Map<Seq<char>, Seq<char>>,
    key: Seq<char>,
    text: Seq<char>,
    succeeded: bool,
)
    requires
        write_effect(before, after, key, text, succeeded),
    ensures
        succeeded ==> after.contains_key(key) && after[key] == text && forall|k: Seq<char>|
            k != key ==> #[trigger] after.get(k) == before.get(k),
        !succeeded ==> after == before,
{
}

/// Storing an encoding: a value that did not encode leaves the store as it
/// was and answers an error reading `serialize error: ` followed by the
/// encoding error's description; a value that encoded answers what the
/// store's write of the text answers, succeeds on a store whose writes all
/// succeed, and on a store that keeps its contents puts the text in place
/// exactly when it succeeds.
pub proof fn law_store_effect<S: Storage>(
    before: S,
    after: S,
    key: Seq<char>,
    enc: Result<String, serde_json::Error>,
    r: Result<(), std::io::Error>,
)
    requires
        encoded_store_effect(before, after, key, enc, r),
    ensures
        enc matches Err(se) ==> {
            &&& after == before
            &&& r matches Err(e) && exists|d: String|
                vstd::string::to_string_from_display_ensures::<serde_json::Error>(&se, d) && forall|
                    s: String,
                | vstd::string::to_string_from_display_ensures::<std::io::Error>(&e, s) <==> s@
                    == "serialize error: "@ + d@
        },
        enc matches Ok(text) ==> {
            &&& before.write_outcome(&after, key, text@, r)
            &&& S::writes_succeed() ==> r is Ok
            &&& S::keeps_contents() && r is Ok ==> after.contents() == before.contents().insert(
                key,
                text@,
            )
            &&& S::keeps_contents() && r is Err ==> after.contents() == before.contents()
        },
{
    match enc {
        Err(se) => {
            let e = r->Err_0;
            let t = choose|t: Seq<char>|
                displays_as(&se, t) && io_error_reads(&e, "serialize error: "@ + t);
            let d = choose|d: String|
                vstd::string::to_string_from_display_ensures::<serde_json::Error>(&se, d) && d@
                    == t;
            assert(io_error_reads(&e, "serialize error: "@ + d@));
        },
        Ok(text) => {},
    }
}

/// Storing a value is storing what `encode` gives for it.
pub proof fn law_store_effect_encodes<
    S: Storage,
    T,
    E: Fn(&T) -> Result<String, serde_json::Error>,
>(before: S, after: S, key: Seq<char>, value: &T, encode: E, r: Result<(), std::io::Error>)
    requires
        store_effect(before, after, key, value, encode, r),
    ensures
        exists|enc: Result<String, serde_json::Error>|
            call_ensures(encode, (value,), enc) && encoded_store_effect(before, after, key, enc, r),
{
}

/// Wraps a message into an I/O error of kind `Other`, which displays as
/// the message. (Of the kind nothing is stated: `std::io::Error` is opaque
/// here.)
#[verifier::external_body]
fn io_error_other(message: String) -> (e: std::io::Error)
    ensures
        io_error_reads(&e, message@),
{
    std::io::Error::other(message)
}

/// Shared state of durable runs: the store of task outputs and the number of
/// tasks completed so far.
pub struct Context<S> {
    pub db: S,
    pub completed_count: usize,
}

impl<S: Storage> Context<S> {
    /// Reads the text stored for `key` and decodes it with `decode`; `None`
    /// when nothing is stored or the text does not decode.
    pub fn get<T, F: Fn(String) -> Option<T>>(&self, key: &str, decode: F) -> (r: Option<T>)
        requires
            forall|s: String| call_requires(decode, (s,)),
        ensures
            S::keeps_contents() ==> read_outcome(self.db.contents(), key@, decode, r),
            r is Some ==> exists|text: Seq<char>| decoded_from(decode, text, r),
    {
        match self.db.get_raw(key) {
            Some(s) => {
                let ghost text = s@;
                let r = decode(s);
                assert(decoded_from(decode, text, r));
                r
            },
            None => None,
        }
    }

    /// Encodes `value` with `encode` and stores the text under `key`. When
    /// the value does not encode, the store is left as it is and the error
    /// reads `serialize error: ` followed by the encoding error's description;
    /// otherwise the result is that of the store's write.
    pub fn save<T, E: Fn(&T) -> Result<String, serde_json::Error>>(
        &mut self,
        key: &str,
        value: &T,
        encode: E,
    ) -> (r: Result<(), std::io::Error>)
        requires
            call_requires(encode, (value,)),
        ensures
            final(self).completed_count == old(self).completed_count,
            store_effect(old(self).db, final(self).db, key@, value, encode, r),
    {
        let enc = encode(value);
        match enc {
            Ok(text) => {
                let ghost t = text;
                let r = self.db.save_raw(key, text.as_str());
                assert(call_ensures(encode, (value,), Ok::<String, serde_json::Error>(t)));
                assert(encoded_store_effect(
                    old(self).db,
                    self.db,
                    key@,
                    Ok::<String, serde_json::Error>(t),
                    r,
                ));
                r
            },
            Err(e) => {
                let d = e.to_string();
                let m = crate::error::join_text("serialize error: ", d.as_str());
                let ghost g = e;
                assert(call_ensures(encode, (value,), Err::<String, serde_json::Error>(g)));
                assert(displays_as(&g, d@));
                assert(m@ == "serialize error: "@ + d@);
                let r = Err(io_error_other(m));
                assert(encoded_store_effect(
                    old(self).db,
                    self.db,
                    key@,
                    Err::<String, serde_json::Error>(g),
                    r,
                ));
                r
            },
        }
    }
}

} // verus!
