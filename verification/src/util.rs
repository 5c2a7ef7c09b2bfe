//! String helpers with exact specifications over `Seq<char>`.

use vstd::prelude::*;
use vstd::string::*;

verus! {

/// Compares two string slices character by character.
pub fn str_eq(a: &str, b: &str) -> (r: bool)
    ensures
        r == (a@ == b@),
{
    let la = a.unicode_len();
    let lb = b.unicode_len();
    if la != lb {
        return false;
    }
    let mut i: usize = 0;
    while i < la
        invariant
            la == a@.len(),
            lb == b@.len(),
            la == lb,
            i <= la,
            forall|j: int| 0 <= j < i ==> a@[j] == b@[j],
        decreases la - i,
    {
        if a.get_char(i) != b.get_char(i) {
            return false;
        }
        i = i + 1;
    }
    assert(a@ =~= b@);
    true
}


/// A new string holding `a` followed by `b`.
pub fn concat_str(a: &str, b: &str) -> (r: String)
    ensures
        r@ == a@ + b@,
{
    let mut s = String::from_str(a);
    s.append(b);
    s
}

/// A copy of a string slice.
pub fn to_owned_string(a: &str) -> (r: String)
    ensures
        r@ == a@,
{
    String::from_str(a)
}

/// Whether `list` holds a string equal to `s`.
pub fn contains_string(list: &Vec<String>, s: &str) -> (r: bool)
    ensures
        r == list@.map_values(|e: String| e@).contains(s@),
{
    let ghost views = list@.map_values(|e: String| e@);
    let n = list.len();
    for i in 0..n
        invariant
            n == list@.len(),
            views == list@.map_values(|e: String| e@),
            forall|j: int| 0 <= j < i ==> views[j] != s@,
    {
        if str_eq(list[i].as_str(), s) {
            assert(views[i as int] == s@);
            return true;
        }
    }
    false
}


/// The decimal digit character of `d < 10`.
pub open spec fn digit_char(d: int) -> char {
    if d == 0 {
        '0'
    } else if d == 1 {
        '1'
    } else if d == 2 {
        '2'
    } else if d == 3 {
        '3'
    } else if d == 4 {
        '4'
    } else if d == 5 {
        '5'
    } else if d == 6 {
        '6'
    } else if d == 7 {
        '7'
    } else if d == 8 {
        '8'
    } else {
        '9'
    }
}

/// Decimal digits of a natural number, most significant first, no leading zeros.
pub open spec fn digits(n: nat) -> Seq<char>
    decreases n,
{
    if n < 10 {
        seq![digit_char(n as int)]
    } else {
        digits(n / 10) + seq![digit_char((n % 10) as int)]
    }
}

/// Decimal text of an integer, as `format!("{}", n)` writes it.
pub open spec fn decimal(n: int) -> Seq<char> {
    if n < 0 {
        seq!['-'] + digits((-n) as nat)
    } else {
        digits(n as nat)
    }
}

fn digit_str(d: u64) -> (r: &'static str)
    requires
        d < 10,
    ensures
        r@ == seq![digit_char(d as int)],
{
    proof {
        reveal_strlit("0");
        reveal_strlit("1");
        reveal_strlit("2");
        reveal_strlit("3");
        reveal_strlit("4");
        reveal_strlit("5");
        reveal_strlit("6");
        reveal_strlit("7");
        reveal_strlit("8");
        reveal_strlit("9");
    }
    if d == 0 {
        "0"
    } else if d == 1 {
        "1"
    } else if d == 2 {
        "2"
    } else if d == 3 {
        "3"
    } else if d == 4 {
        "4"
    } else if d == 5 {
        "5"
    } else if d == 6 {
        "6"
    } else if d == 7 {
        "7"
    } else if d == 8 {
        "8"
    } else {
        "9"
    }
}

fn push_digits(s: &mut String, n: u64)
    ensures
        final(s)@ == old(s)@ + digits(n as nat),
    decreases n,
{
    if n >= 10 {
        push_digits(s, n / 10);
    }
    s.append(digit_str(n % 10));
    proof {
        if n >= 10 {
            assert(final(s)@ =~= old(s)@ + digits(n as nat));
        } else {
            assert(final(s)@ =~= old(s)@ + digits(n as nat));
        }
    }
}

/// Decimal text of an integer.
pub fn int_to_decimal(n: i64) -> (r: String)
    ensures
        r@ == decimal(n as int),
{
    let mut s = String::new();
    if n < 0 {
        s.append("-");
        proof {
            reveal_strlit("-");
        }
        let m: u64 = if n == i64::MIN {
            9223372036854775808u64
        } else {
            (-n) as u64
        };
        push_digits(&mut s, m);
    } else {
        push_digits(&mut s, n as u64);
    }
    s
}

/// Strings joined with a separator between neighbours.
pub open spec fn seq_join(list: Seq<Seq<char>>, sep: Seq<char>) -> Seq<char>
    decreases list.len(),
{
    if list.len() == 0 {
        seq![]
    } else if list.len() == 1 {
        list[0]
    } else {
        seq_join(list.drop_last(), sep) + sep + list.last()
    }
}

/// Joins strings with `sep` between neighbours.
pub fn join_strings(list: &Vec<String>, sep: &str) -> (r: String)
    ensures
        r@ == seq_join(list@.map_values(|v: String| v@), sep@),
{
    let mut res = String::new();
    let ghost views = list@.map_values(|v: String| v@);
    let n = list.len();
    for i in 0..n
        invariant
            n == list@.len(),
            views == list@.map_values(|v: String| v@),
            res@ == seq_join(views.take(i as int), sep@),
    {
        proof {
            assert(views.take(i + 1).drop_last() =~= views.take(i as int));
            assert(views.take(i + 1).last() == list@[i as int]@);
        }
        if i != 0 {
            res.append(sep);
        }
        res.append(list[i].as_str());
        proof {
            if i == 0 {
                assert(res@ =~= seq_join(views.take(1), sep@));
            }
        }
    }
    proof {
        assert(views.take(n as int) =~= views);
    }
    res
}

/// `t` occurs in `s` at position `i`.
pub open spec fn occurs_at(s: Seq<char>, t: Seq<char>, i: int) -> bool {
    0 <= i && i + t.len() <= s.len() && s.subrange(i, i + t.len()) == t
}

/// `t` occurs somewhere in `s`, as `str::contains` finds it.
pub open spec fn contains_sub(s: Seq<char>, t: Seq<char>) -> bool {
    exists|i: int| occurs_at(s, t, i)
}

/// Whether `t` occurs in `s` at position `i`.
fn matches_at(s: &str, t: &str, i: usize) -> (r: bool)
    requires
        i + t@.len() <= s@.len(),
    ensures
        r == occurs_at(s@, t@, i as int),
{
    let _sl = s.unicode_len();
    let tl = t.unicode_len();
    let mut j: usize = 0;
    while j < tl
        invariant
            tl == t@.len(),
            _sl == s@.len(),
            i + tl <= s@.len(),
            j <= tl,
            forall|k: int| 0 <= k < j ==> s@[i + k] == t@[k],
        decreases tl - j,
    {
        if s.get_char(i + j) != t.get_char(j) {
            assert(s@.subrange(i as int, i + t@.len())[j as int] != t@[j as int]);
            return false;
        }
        j = j + 1;
    }
    assert(s@.subrange(i as int, i + t@.len()) =~= t@);
    true
}

/// Whether `t` occurs in `s`.
pub fn str_contains(s: &str, t: &str) -> (r: bool)
    ensures
        r == contains_sub(s@, t@),
{
    let sl = s.unicode_len();
    let tl = t.unicode_len();
    if tl > sl {
        assert forall|i: int| !occurs_at(s@, t@, i) by {}
        return false;
    }
    let last = sl - tl;
    let mut i: usize = 0;
    loop
        invariant
            sl == s@.len(),
            tl == t@.len(),
            tl <= sl,
            last == sl - tl,
            i <= last,
            forall|k: int| 0 <= k < i ==> !occurs_at(s@, t@, k),
        ensures
            forall|k: int| 0 <= k <= last ==> !occurs_at(s@, t@, k),
        decreases last - i,
    {
        if matches_at(s, t, i) {
            return true;
        }
        if i == last {
            break;
        }
        i = i + 1;
    }
    assert forall|k: int| !occurs_at(s@, t@, k) by {
        if 0 <= k && k + tl <= sl {
            assert(k <= last);
        }
    }
    false
}

/// `s` followed by spaces up to `width` characters, as `format!("{:width$}", s)`
/// writes a string.
pub open spec fn pad_right(s: Seq<char>, width: nat) -> Seq<char> {
    if s.len() >= width {
        s
    } else {
        s + Seq::new((width - s.len()) as nat, |i: int| ' ')
    }
}

/// Pads `s` with spaces on the right up to `width` characters.
pub fn pad_right_str(s: &str, width: usize) -> (r: String)
    ensures
        r@ == pad_right(s@, width as nat),
{
    let mut out = String::from_str(s);
    let n = s.unicode_len();
    let mut k: usize = n;
    proof {
        reveal_strlit(" ");
    }
    while k < width
        invariant
            n == s@.len(),
            n <= k || width <= n,
            k >= n,
            k <= width || k == n,
            out@ == s@ + Seq::new((k - n) as nat, |i: int| ' '),
        decreases width - k,
    {
        out.append(" ");
        proof {
            reveal_strlit(" ");
            assert(out@ =~= s@ + Seq::new((k + 1 - n) as nat, |i: int| ' '));
        }
        k = k + 1;
    }
    proof {
        if n >= width {
            assert(out@ =~= s@);
        } else {
            assert(k == width);
        }
    }
    out
}


/// Groups of remote instrument names, as a list of `(group, names)` entries.
/// The groups are keyed by strings, and vstd gives hash maps a key model
/// only for integer and boolean keys, so the entries are kept in a list and
/// looked up by `get`; no group name occurs twice.
pub struct InstrumentMap {
    pub map: Vec<(String, Vec<String>)>,
}

pub open spec fn str_views(v: Seq<String>) -> Seq<Seq<char>> {
    v.map_values(|s: String| s@)
}

impl View for InstrumentMap {
    type V = Seq<(Seq<char>, Seq<Seq<char>>)>;

    open spec fn view(&self) -> Seq<(Seq<char>, Seq<Seq<char>>)> {
        self.map@.map_values(|e: (String, Vec<String>)| (e.0@, str_views(e.1@)))
    }
}

/// An owned copy of a list of string slices.
pub fn strings_of(vals: &[&str]) -> (r: Vec<String>)
    ensures
        str_views(r@) == vals@.map_values(|s: &str| s@),
{
    let mut out: Vec<String> = Vec::new();
    let n = vals.len();
    for i in 0..n
        invariant
            n == vals@.len(),
            str_views(out@) =~= vals@.subrange(0, i as int).map_values(|s: &str| s@),
    {
        let ghost prev = str_views(out@);
        let o = to_owned_string(vals[i]);
        let ghost ov = o@;
        out.push(o);
        proof {
            assert(str_views(out@) =~= prev.push(ov));
            assert(vals@.subrange(0, i + 1) =~= vals@.subrange(0, i as int).push(vals@[i as int]));
        }
    }
    proof {
        assert(vals@.subrange(0, n as int) =~= vals@);
    }
    out
}

/// A group entry of an instrument map.
pub fn map_entry(key: &str, vals: &[&str]) -> (r: (String, Vec<String>))
    ensures
        r.0@ == key@,
        str_views(r.1@) == vals@.map_values(|s: &str| s@),
{
    (to_owned_string(key), strings_of(vals))
}

impl InstrumentMap {
    /// The names of a group, if the map has it (the first entry wins).
    pub fn get(&self, key: &str) -> (r: Option<&Vec<String>>)
        ensures
            match r {
                Some(v) => exists|i: int|
                    0 <= i < self@.len() && self@[i].0 == key@ && str_views(v@) == self@[i].1 && (
                    forall|j: int| 0 <= j < i ==> self@[j].0 != key@),
                None => forall|j: int| 0 <= j < self@.len() ==> self@[j].0 != key@,
            },
    {
        let n = self.map.len();
        for i in 0..n
            invariant
                n == self.map@.len(),
                forall|j: int| 0 <= j < i ==> self@[j].0 != key@,
        {
            if str_eq(self.map[i].0.as_str(), key) {
                assert(self@[i as int].0 == key@);
                return Some(&self.map[i].1);
            }
        }
        None
    }
}


/// `s` with every occurrence of the non-empty `pat` replaced by `rep`,
/// scanning left to right without overlaps, as `str::replace` does.
pub open spec fn replace_all(s: Seq<char>, pat: Seq<char>, rep: Seq<char>) -> Seq<char>
    decreases s.len(),
{
    if pat.len() == 0 || s.len() < pat.len() {
        s
    } else if s.subrange(0, pat.len() as int) == pat {
        rep + replace_all(s.subrange(pat.len() as int, s.len() as int), pat, rep)
    } else {
        seq![s[0]] + replace_all(s.subrange(1, s.len() as int), pat, rep)
    }
}

/// Replaces every occurrence of the non-empty `pat` in `s` by `rep`.
pub fn replace_str(s: &str, pat: &str, rep: &str) -> (r: String)
    requires
        pat@.len() > 0,
    ensures
        r@ == replace_all(s@, pat@, rep@),
{
    let n = s.unicode_len();
    let pl = pat.unicode_len();
    let mut out = String::new();
    let mut i: usize = 0;
    proof {
        assert(s@.subrange(0, n as int) =~= s@);
        assert(out@ + replace_all(s@, pat@, rep@) =~= replace_all(s@, pat@, rep@));
    }
    while i < n
        invariant
            n == s@.len(),
            pl == pat@.len(),
            pl > 0,
            i <= n,
            out@ + replace_all(s@.subrange(i as int, n as int), pat@, rep@) == replace_all(
                s@,
                pat@,
                rep@,
            ),
        decreases n - i,
    {
        let ghost rest = s@.subrange(i as int, n as int);
        if pl <= n - i && matches_at(s, pat, i) {
            proof {
                assert(rest.subrange(0, pl as int) =~= s@.subrange(i as int, i + pl));
                assert(rest.subrange(pl as int, rest.len() as int) =~= s@.subrange(
                    i + pl,
                    n as int,
                ));
                assert(out@ + rep@ + replace_all(s@.subrange(i + pl, n as int), pat@, rep@) =~= out@
                    + replace_all(rest, pat@, rep@));
            }
            out.append(rep);
            i = i + pl;
        } else {
            let piece = s.substring_char(i, i + 1);
            proof {
                if pl <= n - i {
                    assert(rest.subrange(0, pl as int) =~= s@.subrange(i as int, i + pl));
                }
                assert(rest.subrange(1, rest.len() as int) =~= s@.subrange(i + 1, n as int));
                assert(piece@ =~= seq![rest[0]]);
                assert(out@ + piece@ + replace_all(s@.subrange(i + 1, n as int), pat@, rep@) =~= out@
                    + replace_all(rest, pat@, rep@));
            }
            out.append(piece);
            i = i + 1;
        }
    }
    proof {
        assert(s@.subrange(n as int, n as int).len() == 0);
        assert(out@ =~= out@ + replace_all(s@.subrange(n as int, n as int), pat@, rep@));
    }
    out
}

/// Decimal digits of `n`, left-padded with zeros to at least `width`
/// characters, as `format!("{:0width$}", n)` writes an unsigned number.
pub open spec fn zero_padded(n: nat, width: nat) -> Seq<char> {
    let d = digits(n);
    if d.len() >= width {
        d
    } else {
        Seq::new((width - d.len()) as nat, |i: int| '0') + d
    }
}

/// The decimal text of `n`, zero-padded to at least `width` characters.
pub fn zero_padded_decimal(n: u64, width: usize) -> (r: String)
    ensures
        r@ == zero_padded(n as nat, width as nat),
{
    let mut digits_str = String::new();
    push_digits(&mut digits_str, n);
    let d = digits_str.unicode_len();
    if d >= width {
        return digits_str;
    }
    let mut out = String::new();
    let mut k: usize = 0;
    while k < width - d
        invariant
            d < width,
            d == digits(n as nat).len(),
            digits_str@ == digits(n as nat),
            k <= width - d,
            out@ == Seq::new(k as nat, |i: int| '0'),
        decreases width - d - k,
    {
        out.append("0");
        proof {
            reveal_strlit("0");
            assert(out@ =~= Seq::new((k + 1) as nat, |i: int| '0'));
        }
        k = k + 1;
    }
    out.append(digits_str.as_str());
    out
}

} // verus!
