//! Text helpers: decimal rendering of integers and the naming rule that
//! maps a local file path to a script name.

use vstd::prelude::*;
use vstd::string::*;

verus! {

/// Whether two texts hold the same characters.
pub fn same_text(a: &str, b: &str) -> (r: bool)
    ensures
        r == (a@ == b@),
{
    let left = String::from_str(a);
    let right = String::from_str(b);
    left == right
}

/// The decimal digit character for `d`, where `0 <= d < 10`.
pub open spec fn digit_char(d: int) -> char {
    if d == 0 {
        '0'
    } else if d == 1 {
        '1'
    } else if d == 2 {
        '2'
    } else if d == 3 {
        '3'
    } else if d == 4 {
        '4'
    } else if d == 5 {
        '5'
    } else if d == 6 {
        '6'
    } else if d == 7 {
        '7'
    } else if d == 8 {
        '8'
    } else {
        '9'
    }
}

/// The decimal digits of a natural number, most significant first, with no
/// leading zero (zero itself is "0").
pub open spec fn decimal_digits(n: nat) -> Seq<char>
    decreases n,
{
    if n < 10 {
        seq![digit_char(n as int)]
    } else {
        decimal_digits(n / 10).push(digit_char((n % 10) as int))
    }
}

/// The decimal rendering of an integer: a minus sign for negative values,
/// then the digits of the magnitude.
pub open spec fn decimal(i: int) -> Seq<char> {
    if i < 0 {
        seq!['-'] + decimal_digits((-i) as nat)
    } else {
        decimal_digits(i as nat)
    }
}

fn digit_str(d: u64) -> (r: &'static str)
    requires
        d < 10,
    ensures
        r@ == seq![digit_char(d as int)],
{
    proof {
        reveal_strlit("0");
        reveal_strlit("1");
        reveal_strlit("2");
        reveal_strlit("3");
        reveal_strlit("4");
        reveal_strlit("5");
        reveal_strlit("6");
        reveal_strlit("7");
        reveal_strlit("8");
        reveal_strlit("9");
    }
    let r = if d == 0 {
        "0"
    } else if d == 1 {
        "1"
    } else if d == 2 {
        "2"
    } else if d == 3 {
        "3"
    } else if d == 4 {
        "4"
    } else if d == 5 {
        "5"
    } else if d == 6 {
        "6"
    } else if d == 7 {
        "7"
    } else if d == 8 {
        "8"
    } else {
        "9"
    };
    assert(r@ =~= seq![digit_char(d as int)]);
    r
}

/// Renders a natural number in decimal.
pub fn unsigned_to_string(n: u64) -> (r: String)
    ensures
        r@ == decimal_digits(n as nat),
    decreases n,
{
    if n < 10 {
        String::from_str(digit_str(n))
    } else {
        let mut s = unsigned_to_string(n / 10);
        s.append(digit_str(n % 10));
        assert(s@ =~= decimal_digits(n as nat));
        s
    }
}

/// Renders a signed integer in decimal.
pub fn int_to_string(i: i64) -> (r: String)
    ensures
        r@ == decimal(i as int),
{
    if i < 0 {
        let magnitude: u64 = if i == i64::MIN {
            9223372036854775808u64
        } else {
            (-i) as u64
        };
        let s = String::from_str("-");
        proof {
            reveal_strlit("-");
        }
        let digits = unsigned_to_string(magnitude);
        let r = s.concat(digits.as_str());
        assert(r@ =~= decimal(i as int));
        r
    } else {
        unsigned_to_string(i as u64)
    }
}

/// Whether `c` separates the components of a path.
pub open spec fn is_separator(c: char) -> bool {
    c == '/' || c == '\\'
}

/// The extension that marks a file as a script.
pub open spec fn script_extension() -> Seq<char> {
    seq!['.', 'j', 's']
}

/// Whether the path ends in the script extension.
pub open spec fn has_script_extension(path: Seq<char>) -> bool {
    path.len() >= 3 && path.subrange(path.len() - 3, path.len() as int) == script_extension()
}

/// Where the last component of the path begins: just behind the last
/// separator, or at the start where the path has none.
pub open spec fn base_start(path: Seq<char>) -> int
    decreases path.len(),
{
    if path.len() == 0 {
        0
    } else if is_separator(path.last()) {
        path.len() as int
    } else {
        base_start(path.drop_last())
    }
}

/// The script name of a path: its last component without the extension.
/// Paths that do not end in the script extension name no script.
pub open spec fn script_name_of(path: Seq<char>) -> Option<Seq<char>> {
    if has_script_extension(path) {
        Some(path.subrange(base_start(path), path.len() - 3))
    } else {
        None
    }
}

/// `base_start` is the unique position that follows a separator (or is the
/// start of the path) and has no separator behind it.
pub proof fn lemma_base_start(path: Seq<char>)
    ensures
        0 <= base_start(path) <= path.len(),
        base_start(path) > 0 ==> is_separator(path[base_start(path) - 1]),
        forall|i: int| base_start(path) <= i < path.len() ==> !is_separator(#[trigger] path[i]),
    decreases path.len(),
{
    if path.len() > 0 && !is_separator(path.last()) {
        let front = path.drop_last();
        lemma_base_start(front);
        assert forall|i: int| base_start(path) <= i < path.len() implies !is_separator(
            #[trigger] path[i],
        ) by {
            if i < front.len() {
                assert(path[i] == front[i]);
            }
        }
    }
}

/// A script name never contains a separator and leaves the extension out:
/// the path is its directory part, the name and the extension in a row.
pub proof fn lemma_script_name_splits_path(path: Seq<char>)
    requires
        has_script_extension(path),
    ensures
        base_start(path) <= path.len() - 3,
        script_name_of(path) is Some,
        path == path.subrange(0, base_start(path)) + script_name_of(path).unwrap()
            + script_extension(),
        forall|i: int|
            0 <= i < script_name_of(path).unwrap().len() ==> !is_separator(
                #[trigger] script_name_of(path).unwrap()[i],
            ),
{
    lemma_base_start(path);
    let n = path.len() as int;
    let ext = path.subrange(n - 3, n);
    assert(ext[0] == '.' && ext[1] == 'j' && ext[2] == 's');
    assert(path[n - 3] == '.' && path[n - 2] == 'j' && path[n - 1] == 's');
    if base_start(path) > n - 3 {
        assert(is_separator(path[base_start(path) - 1]));
    }
    let name = script_name_of(path).unwrap();
    assert(path =~= path.subrange(0, base_start(path)) + name + script_extension());
    assert forall|i: int| 0 <= i < name.len() implies !is_separator(#[trigger] name[i]) by {
        assert(name[i] == path[base_start(path) + i]);
    }
}

/// The script name of `path`, or `None` where the path does not end in the
/// script extension.
pub fn script_name(path: &str) -> (r: Option<String>)
    ensures
        r is Some <==> has_script_extension(path@),
        r matches Some(name) ==> Some(name@) == script_name_of(path@),
{
    let n = path.unicode_len();
    if n < 3 {
        return None;
    }
    if path.get_char(n - 3) != '.' || path.get_char(n - 2) != 'j' || path.get_char(n - 1) != 's' {
        assert(!has_script_extension(path@)) by {
            let ext = path@.subrange(n - 3, n as int);
            if has_script_extension(path@) {
                assert(ext[0] == '.' && ext[1] == 'j' && ext[2] == 's');
            }
        }
        return None;
    }
    assert(has_script_extension(path@)) by {
        assert(path@.subrange(n - 3, n as int) =~= script_extension());
    }
    proof {
        lemma_script_name_splits_path(path@);
    }
    let mut start: usize = n - 3;
    while start > 0 && !(path.get_char(start - 1) == '/' || path.get_char(start - 1) == '\\')
        invariant
            n == path@.len(),
            0 <= start <= n - 3,
            base_start(path@) <= start,
            forall|i: int| start <= i < n ==> !is_separator(#[trigger] path@[i]),
        decreases start,
    {
        proof {
            lemma_base_start(path@);
            if base_start(path@) == start {
                assert(is_separator(path@[start - 1]));
            }
        }
        start = start - 1;
    }
    proof {
        lemma_base_start(path@);
        if start > 0 {
            assert(is_separator(path@[start - 1]));
        }
    }
    Some(String::from_str(path.substring_char(start, n - 3)))
}

} // verus!
