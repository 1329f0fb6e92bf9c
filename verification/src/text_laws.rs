//! What text is made of: numbers, names and paths.
use crate::object_path::{is_object_path, refusal, until_nul};
use crate::portal::request_path;
use crate::text::{decimal, replaced};
use vstd::prelude::*;

verus! {

/// The number that a row of decimal digits stands for.
pub open spec fn value_of(digits: Seq<char>) -> int
    decreases digits.len(),
{
    if digits.len() == 0 {
        0
    } else {
        10 * value_of(digits.drop_last()) + (digits.last() as int - '0' as int)
    }
}

/// A number is written with decimal digits, without needless zeros in front, and reads back as itself.
pub proof fn a_number_reads_back(n: nat)
    ensures
        value_of(decimal(n)) == n,
        decimal(n).len() > 0,
        forall|i: int| 0 <= i < decimal(n).len() ==> '0' <= #[trigger] decimal(n)[i] <= '9',
        decimal(n).len() > 1 ==> decimal(n)[0] != '0',
    decreases n,
{
    if n < 10 {
        reveal_with_fuel(value_of, 2);
        assert(decimal(n).drop_last() =~= Seq::<char>::empty());
    } else {
        a_number_reads_back(n / 10);
        let rest = decimal(n / 10);
        assert(decimal(n).drop_last() =~= rest);
        assert(decimal(n)[0] == rest[0]);
        if rest.len() == 1 {
            reveal_with_fuel(value_of, 2);
            assert(rest.drop_last() =~= Seq::<char>::empty());
            assert(value_of(rest) == rest[0] as int - '0' as int);
        }
        assert forall|i: int| 0 <= i < decimal(n).len() implies '0' <= #[trigger] decimal(n)[i]
            <= '9' by {
            if i < rest.len() {
                assert(decimal(n)[i] == rest[i]);
            }
        }
    }
}

/// Replacing a character changes every place at which it stands, and no other.
pub proof fn every_such_character_is_replaced(text: Seq<char>, from: char, to: char, i: int)
    requires
        0 <= i < text.len(),
    ensures
        replaced(text, from, to).len() == text.len(),
        text[i] == from ==> replaced(text, from, to)[i] == to,
        text[i] != from ==> replaced(text, from, to)[i] == text[i],
{
}

/// The path of a request lies below that of all requests. It goes on with the name of the connection,
/// which has an underscore for each dot and is without its first character, and ends with a slash and
/// the token.
pub proof fn a_request_path_names_the_connection_and_the_token(
    unique_name: Seq<char>,
    token: Seq<char>,
    i: int,
)
    requires
        1 <= i < unique_name.len(),
    ensures
        ({
            let path = request_path(unique_name, token);
            let start = "/org/freedesktop/portal/desktop/request/"@.len() as int;
            let end = start + unique_name.len() - 1;
            &&& path.len() == end + 1 + token.len()
            &&& path.take(start) == "/org/freedesktop/portal/desktop/request/"@
            &&& unique_name[i] == '.' ==> path[start + i - 1] == '_'
            &&& unique_name[i] != '.' ==> path[start + i - 1] == unique_name[i]
            &&& path[end] == '/'
            &&& path.skip(end + 1) == token
        }),
{
    reveal_strlit("/");
    let path = request_path(unique_name, token);
    let start = "/org/freedesktop/portal/desktop/request/"@.len() as int;
    let end = start + unique_name.len() - 1;
    assert(path.take(start) =~= "/org/freedesktop/portal/desktop/request/"@);
    assert(path.skip(end + 1) =~= token);
}

/// `c` is a letter or a digit of ASCII, or an underscore.
pub open spec fn is_letter_digit_or_underscore(c: char) -> bool {
    ||| '0' <= c <= '9'
    ||| 'a' <= c <= 'z'
    ||| 'A' <= c <= 'Z'
    ||| c == '_'
}

/// The root is an object path. Any other text is one exactly if it begins with a slash, does not end
/// with one, has no two of them in a row, and has nothing else but letters, digits and underscores.
pub proof fn an_object_path_is_made_of_names(path: Seq<char>)
    ensures
        is_object_path(path) <==> path == seq!['/'] || {
            &&& path.len() > 1
            &&& path[0] == '/'
            &&& path[path.len() - 1] != '/'
            &&& forall|i: int|
                #![trigger path[i]]
                0 <= i < path.len() ==> path[i] == '/' || is_letter_digit_or_underscore(path[i])
            &&& forall|i: int, j: int|
                #![trigger path[i], path[j]]
                0 <= i < path.len() && j == i + 1 && j < path.len() ==> path[i] != '/' || path[j]
                    != '/'
        },
{
    if is_object_path(path) && path.len() == 1 {
        assert(path =~= seq!['/']);
    }
    if is_object_path(path) {
        assert forall|i: int, j: int|
            #![trigger path[i], path[j]]
            0 <= i < path.len() && j == i + 1 && j < path.len() implies path[i] != '/' || path[j]
            != '/' by {
            assert(path[j - 1] == path[i]);
        }
    } else if path.len() > 1 && path[0] == '/' && path[path.len() - 1] != '/' {
        let i = choose|i: int|
            #![trigger path[i]]
            1 <= i < path.len() && !(if path[i] == '/' {
                path[i - 1] != '/'
            } else {
                crate::object_path::is_name_char(path[i])
            });
        let before = path[i - 1];
    }
}

/// What stands before the first NUL: `k` is where it is, or the length of the text where there is
/// none.
pub proof fn a_text_is_read_up_to_its_first_nul(text: Seq<char>, k: int)
    requires
        0 <= k <= text.len(),
        forall|i: int| 0 <= i < k ==> text[i] != '\0',
        k < text.len() ==> text[k] == '\0',
    ensures
        until_nul(text) == text.take(k),
    decreases text.len(),
{
    if k == 0 {
        assert(text.take(0) =~= Seq::<char>::empty());
    } else {
        let rest = text.drop_first();
        assert forall|i: int| 0 <= i < k - 1 implies rest[i] != '\0' by {
            assert(rest[i] == text[i + 1]);
        }
        a_text_is_read_up_to_its_first_nul(rest, k - 1);
        assert(text.take(k) =~= seq![text[0]] + rest.take(k - 1));
    }
}

/// The refusal of a text quotes it.
pub proof fn a_refusal_quotes_the_text(quoted: Seq<char>)
    ensures
        refusal(quoted) == "Object path was not valid: '"@ + quoted + seq!['\''],
{
    reveal_strlit("'");
    assert("'"@ =~= seq!['\'']);
}

} // verus!
