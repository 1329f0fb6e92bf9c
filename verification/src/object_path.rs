//! Object paths.
use vstd::prelude::*;

verus! {

/// A character that the name of a path element may have.
pub open spec fn is_name_char(c: char) -> bool {
    ||| '0' <= c <= '9'
    ||| 'A' <= c <= 'Z'
    ||| 'a' <= c <= 'z'
    ||| c == '_'
}

/// An object path: a slash, followed by names with single slashes between them.
pub open spec fn is_object_path(path: Seq<char>) -> bool {
    &&& path.len() > 0
    &&& path[0] == '/'
    &&& forall|i: int|
        #![trigger path[i]]
        1 <= i < path.len() ==> if path[i] == '/' {
            path[i - 1] != '/'
        } else {
            is_name_char(path[i])
        }
    &&& path.len() > 1 ==> path.last() != '/'
}

/// `text` up to its first NUL, or all of it where it has none.
pub open spec fn until_nul(text: Seq<char>) -> Seq<char>
    decreases text.len(),
{
    if text.len() == 0 || text[0] == '\0' {
        Seq::empty()
    } else {
        seq![text[0]] + until_nul(text.drop_first())
    }
}

/// The greatest length, in bytes, of a text that is handed to libdbus.
pub const MAX_PATH_BYTES: usize = 0x7fff_ffe2;

/// What is said of a text that is no object path, `quoted` being what stands before its first NUL.
pub open spec fn refusal(quoted: Seq<char>) -> Seq<char> {
    "Object path was not valid: '"@ + quoted + "'"@
}

/// `dbus::Path::new` takes a text for an object path if what stands before its first NUL is one,
/// and keeps all of it. Otherwise it fails with the message of libdbus, which quotes what stands
/// before the first NUL, or says that there was no memory for such a message; which of the two comes
/// is not claimed. libdbus measures the text and the message, which is 29 bytes longer, with a C
/// `int`, so the text may have no more than 2^31 - 30 bytes.
#[verifier::external_body]
pub(crate) fn new_path(text: &str) -> (path: Result<String, String>)
    requires
        vstd::utf8::encode_utf8(text@).len() <= MAX_PATH_BYTES,
    ensures
        path is Ok <==> is_object_path(until_nul(text@)),
        path is Ok ==> path->Ok_0@ == text@,
        path is Err ==> path->Err_0@ == refusal(until_nul(text@)) || path->Err_0@
            == "Not enough memory"@,
{
    dbus::Path::new(text).map(|path| path.to_string())
}

/// What stands in `text` before its first NUL, or all of it where it has none.
fn before_nul(text: &str) -> (quoted: String)
    ensures
        quoted@ == until_nul(text@),
{
    let mut quoted = String::new();
    assert(text@.skip(0) =~= text@);
    assert(quoted@ + until_nul(text@) =~= until_nul(text@));
    for c in iter: text.chars()
        invariant
            iter.seq() == text@,
            until_nul(text@) == quoted@ + until_nul(text@.skip(iter.index() as int)),
    {
        let ghost rest = text@.skip(iter.index() as int);
        assert(rest[0] == c);
        if c == '\0' {
            assert(quoted@ + until_nul(rest) =~= quoted@);
            return quoted;
        }
        let ghost before = quoted@;
        quoted.push(c);
        proof {
            assert(rest.drop_first() =~= text@.skip(iter.index() + 1));
            assert(before + until_nul(rest) =~= quoted@ + until_nul(rest.drop_first()));
        }
    }
    assert(quoted@ + until_nul(text@.skip(text@.len() as int)) =~= quoted@);
    quoted
}

/// Whether `text` is an object path.
fn is_path(text: &str) -> (res: bool)
    ensures
        res == is_object_path(text@),
{
    let mut last: Option<char> = None;
    for c in iter: text.chars()
        invariant
            iter.seq() == text@,
            last == if iter.index() == 0 {
                None
            } else {
                Some(text@[iter.index() - 1])
            },
            iter.index() > 0 ==> text@[0] == '/',
            forall|i: int|
                #![trigger text@[i]]
                1 <= i < iter.index() ==> if text@[i] == '/' {
                    text@[i - 1] != '/'
                } else {
                    is_name_char(text@[i])
                },
    {
        let ghost at = iter.index() as int;
        assert(text@[at] == c);
        let fits = match last {
            None => c == '/',
            Some('/') => is_name(c),
            Some(_) => c == '/' || is_name(c),
        };
        if !fits {
            return false;
        }
        last = Some(c);
    }
    match last {
        None => false,
        Some(c) => c != '/' || text.unicode_len() == 1,
    }
}

fn is_name(c: char) -> (res: bool)
    ensures
        res == is_name_char(c),
{
    ('0' <= c && c <= '9') || ('A' <= c && c <= 'Z') || ('a' <= c && c <= 'z') || c == '_'
}

/// Takes a text for an object path as `new_path` does, but without libdbus, so that it may have any
/// length.
pub fn new_long_path(text: &str) -> (path: Result<String, String>)
    ensures
        path is Ok <==> is_object_path(until_nul(text@)),
        path is Ok ==> path->Ok_0@ == text@,
        path is Err ==> path->Err_0@ == refusal(until_nul(text@)),
{
    let quoted = before_nul(text);
    if is_path(quoted.as_str()) {
        Ok(text.to_owned())
    } else {
        Err("Object path was not valid: '".to_owned().concat(quoted.as_str()).concat("'"))
    }
}

/// A text without a NUL is taken for an object path exactly if it is one.
pub proof fn until_nul_keeps_text(text: Seq<char>)
    requires
        forall|i: int| 0 <= i < text.len() ==> text[i] != '\0',
    ensures
        until_nul(text) == text,
    decreases text.len(),
{
    if text.len() > 0 {
        assert forall|i: int| 0 <= i < text.drop_first().len() implies text.drop_first()[i]
            != '\0' by {
            assert(text.drop_first()[i] == text[i + 1]);
        }
        until_nul_keeps_text(text.drop_first());
        assert(until_nul(text) =~= text);
    }
}

} // verus!
