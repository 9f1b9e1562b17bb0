use vstd::prelude::*;

verus! {

/// Compares two string slices by their character sequences.
pub fn str_eq(a: &str, b: &str) -> (r: bool)
    ensures
        r == (a@ == b@),
{
    let a_len = a.unicode_len();
    let b_len = b.unicode_len();
    if a_len != b_len {
        proof {
            assert(a@ != b@) by {
                assert(a@.len() != b@.len());
            }
        }
        return false;
    }
    let mut i: usize = 0;
    while i < a_len
        invariant
            i <= a_len,
            a_len == a@.len(),
            a_len == b@.len(),
            forall|j: int| 0 <= j < i ==> a@[j] == b@[j],
        decreases a_len - i,
    {
        if a.get_char(i) != b.get_char(i) {
            return false;
        }
        i += 1;
    }
    proof {
        assert(a@ =~= b@);
    }
    true
}

/// Appends one character to a string.
///
/// Relies on `String::push`, which appends exactly the given character.
#[verifier::external_body]
pub fn push_char(s: &mut String, c: char)
    ensures
        final(s)@ == old(s)@ + seq![c],
{
    s.push(c);
}

/// The characters of `items` joined with `sep` between consecutive items;
/// empty when `items` is empty.
pub open spec fn spec_join(items: Seq<Seq<char>>, sep: Seq<char>) -> Seq<char>
    decreases items.len(),
{
    if items.len() == 0 {
        Seq::empty()
    } else if items.len() == 1 {
        items[0]
    } else {
        items[0] + sep + spec_join(items.drop_first(), sep)
    }
}

/// Appending one more item to a join appends a separator and the item,
/// except onto an empty join.
proof fn lemma_join_push(items: Seq<Seq<char>>, sep: Seq<char>, item: Seq<char>)
    ensures
        spec_join(items.push(item), sep) == if items.len() == 0 {
            item
        } else {
            (spec_join(items, sep) + sep + item)
        },
    decreases items.len(),
{
    if items.len() == 0 {
        assert(items.push(item) =~= seq![item]);
        assert(spec_join(seq![item], sep) == item);
    } else {
        lemma_join_push(items.drop_first(), sep, item);
        assert(items.push(item).drop_first() =~= items.drop_first().push(item));
        if items.len() == 1 {
            assert(items.drop_first().len() == 0);
            assert(spec_join(items, sep) == items[0]);
        } else {
            assert(spec_join(items, sep) == items[0] + sep + spec_join(items.drop_first(), sep));
        }
    }
}

/// Joins the strings of `items` with `sep` between consecutive items.
pub fn join_strings(items: &Vec<String>, sep: &str) -> (r: String)
    ensures
        r@ == spec_join(items.deep_view(), sep@),
{
    let mut r = String::new();
    let mut i: usize = 0;
    while i < items.len()
        invariant
            i <= items@.len(),
            r@ == spec_join(items.deep_view().take(i as int), sep@),
        decreases items@.len() - i,
    {
        if i > 0 {
            r.append(sep);
        }
        r.append(items[i].as_str());
        proof {
            let dv = items.deep_view();
            assert(dv.take(i + 1) =~= dv.take(i as int).push(dv[i as int]));
            lemma_join_push(dv.take(i as int), sep@, dv[i as int]);
            assert(dv[i as int] == items@[i as int]@);
        }
        i += 1;
    }
    proof {
        assert(items.deep_view().take(items@.len() as int) =~= items.deep_view());
    }
    r
}

/// The suffix of `s` strictly after the last occurrence of `c`;
/// all of `s` when `c` does not occur.
pub open spec fn spec_after_last(s: Seq<char>, c: char) -> Seq<char>
    decreases s.len(),
{
    if s.len() == 0 {
        s
    } else if s.last() == c {
        Seq::empty()
    } else {
        spec_after_last(s.drop_last(), c).push(s.last())
    }
}

proof fn lemma_after_last_len(s: Seq<char>, c: char)
    ensures
        spec_after_last(s, c).len() <= s.len(),
    decreases s.len(),
{
    if s.len() > 0 && s.last() != c {
        lemma_after_last_len(s.drop_last(), c);
    }
}

proof fn lemma_after_last_no_occurrence(s: Seq<char>, c: char)
    requires
        forall|j: int| 0 <= j < s.len() ==> s[j] != c,
    ensures
        spec_after_last(s, c) == s,
    decreases s.len(),
{
    if s.len() > 0 {
        lemma_after_last_no_occurrence(s.drop_last(), c);
        assert(spec_after_last(s, c) =~= s);
    }
}

proof fn lemma_after_last_at(s: Seq<char>, c: char, i: int)
    requires
        0 <= i < s.len(),
        s[i] == c,
        forall|j: int| i < j < s.len() ==> s[j] != c,
    ensures
        spec_after_last(s, c) == s.skip(i + 1),
    decreases s.len(),
{
    if i == s.len() - 1 {
        assert(s.last() == c);
        assert(s.skip(i + 1) =~= Seq::empty());
    } else {
        lemma_after_last_at(s.drop_last(), c, i);
        assert(spec_after_last(s, c) == spec_after_last(s.drop_last(), c).push(s.last()));
        assert(s.drop_last().skip(i + 1).push(s.last()) =~= s.skip(i + 1));
    }
}

/// The position of the last occurrence of `c` in `s`, if any.
pub fn last_occurrence(s: &str, c: char) -> (r: Option<usize>)
    ensures
        match r {
            Some(i) => {
                &&& i < s@.len()
                &&& s@[i as int] == c
                &&& forall|j: int| i < j < s@.len() ==> s@[j] != c
            },
            None => forall|j: int| 0 <= j < s@.len() ==> s@[j] != c,
        },
{
    let n = s.unicode_len();
    let mut i: usize = n;
    while i > 0
        invariant
            i <= n,
            n == s@.len(),
            forall|j: int| i <= j < s@.len() ==> s@[j] != c,
        decreases i,
    {
        i -= 1;
        if s.get_char(i) == c {
            return Some(i);
        }
    }
    None
}

/// The final path component: the text after the last `/`, or all of the
/// path when it has no `/`.
pub open spec fn spec_file_name(path: Seq<char>) -> Seq<char> {
    spec_after_last(path, '/')
}

/// The extension of the final path component: the text after its last `.`,
/// unless the component has no `.`, or only a leading one.
pub open spec fn spec_extension(path: Seq<char>) -> Option<Seq<char>> {
    let name = spec_file_name(path);
    let ext = spec_after_last(name, '.');
    if ext.len() == name.len() || ext.len() + 1 == name.len() {
        None
    } else {
        Some(ext)
    }
}

/// The stem of the final path component: the text before its last `.`, or
/// the whole component when [`spec_extension`] is `None`.
pub open spec fn spec_file_stem(path: Seq<char>) -> Seq<char> {
    let name = spec_file_name(path);
    let ext = spec_after_last(name, '.');
    if ext.len() == name.len() || ext.len() + 1 == name.len() {
        name
    } else {
        name.take(name.len() - ext.len() - 1)
    }
}

/// The suffix of `s` strictly after the last occurrence of `c`.
pub fn after_last<'a>(s: &'a str, c: char) -> (r: &'a str)
    ensures
        r@ == spec_after_last(s@, c),
{
    let n = s.unicode_len();
    match last_occurrence(s, c) {
        Some(i) => {
            proof {
                lemma_after_last_at(s@, c, i as int);
            }
            s.substring_char(i + 1, n)
        },
        None => {
            proof {
                lemma_after_last_no_occurrence(s@, c);
                assert(s@.subrange(0, n as int) =~= s@);
            }
            s.substring_char(0, n)
        },
    }
}

/// The final path component of `path`.
pub fn file_name<'a>(path: &'a str) -> (r: &'a str)
    ensures
        r@ == spec_file_name(path@),
{
    after_last(path, '/')
}

/// The extension of the final path component of `path`.
pub fn extension_of<'a>(path: &'a str) -> (r: Option<&'a str>)
    ensures
        match r {
            Some(e) => spec_extension(path@) == Some(e@),
            None => spec_extension(path@) is None,
        },
{
    let name = file_name(path);
    let ext = after_last(name, '.');
    let name_len = name.unicode_len();
    let ext_len = ext.unicode_len();
    proof {
        lemma_after_last_len(name@, '.');
    }
    if ext_len == name_len || ext_len + 1 == name_len {
        None
    } else {
        Some(ext)
    }
}

/// The stem of the final path component of `path`.
pub fn file_stem<'a>(path: &'a str) -> (r: &'a str)
    ensures
        r@ == spec_file_stem(path@),
{
    let name = file_name(path);
    let ext = after_last(name, '.');
    let name_len = name.unicode_len();
    let ext_len = ext.unicode_len();
    proof {
        lemma_after_last_len(name@, '.');
    }
    if ext_len == name_len || ext_len + 1 == name_len {
        name
    } else {
        proof {
            assert(name@.subrange(0, name@.len() - ext@.len() - 1) =~= name@.take(
                name@.len() - ext@.len() - 1,
            ));
        }
        name.substring_char(0, name_len - ext_len - 1)
    }
}

/// The decimal digit character for a value below ten.
pub open spec fn spec_digit(d: int) -> char
    recommends
        0 <= d < 10,
{
    if d == 0 {
        '0'
    } else if d == 1 {
        '1'
    } else if d == 2 {
        '2'
    } else if d == 3 {
        '3'
    } else if d == 4 {
        '4'
    } else if d == 5 {
        '5'
    } else if d == 6 {
        '6'
    } else if d == 7 {
        '7'
    } else if d == 8 {
        '8'
    } else {
        '9'
    }
}

/// The decimal digits of a non-negative value, most significant first,
/// without a sign and without leading zeros (a single `0` for zero).
pub open spec fn spec_u64_digits(n: int) -> Seq<char>
    recommends
        n >= 0,
    decreases n,
{
    if n < 10 {
        seq![spec_digit(n)]
    } else {
        spec_u64_digits(n / 10).push(spec_digit(n % 10))
    }
}

/// The decimal rendering of a signed value: a `-` sign when negative,
/// then the digits of its magnitude.
pub open spec fn spec_i32_digits(n: int) -> Seq<char> {
    if n < 0 {
        seq!['-'] + spec_u64_digits(-n)
    } else {
        spec_u64_digits(n)
    }
}

fn digit_char(d: u64) -> (c: char)
    requires
        d < 10,
    ensures
        c == spec_digit(d as int),
{
    if d == 0 {
        '0'
    } else if d == 1 {
        '1'
    } else if d == 2 {
        '2'
    } else if d == 3 {
        '3'
    } else if d == 4 {
        '4'
    } else if d == 5 {
        '5'
    } else if d == 6 {
        '6'
    } else if d == 7 {
        '7'
    } else if d == 8 {
        '8'
    } else {
        '9'
    }
}

fn push_u64_digits(s: &mut String, n: u64)
    ensures
        final(s)@ == old(s)@ + spec_u64_digits(n as int),
    decreases n,
{
    if n < 10 {
        push_char(s, digit_char(n));
    } else {
        push_u64_digits(s, n / 10);
        push_char(s, digit_char(n % 10));
        proof {
            assert(old(s)@ + spec_u64_digits((n / 10) as int) + seq![
                spec_digit((n % 10) as int),
            ] =~= old(s)@ + spec_u64_digits(n as int));
        }
    }
}

/// Renders an unsigned value in decimal.
pub fn u64_to_string(n: u64) -> (r: String)
    ensures
        r@ == spec_u64_digits(n as int),
{
    let mut r = String::new();
    push_u64_digits(&mut r, n);
    proof {
        assert(Seq::<char>::empty() + spec_u64_digits(n as int) =~= spec_u64_digits(n as int));
    }
    r
}

/// Renders a signed value in decimal.
pub fn i32_to_string(n: i32) -> (r: String)
    ensures
        r@ == spec_i32_digits(n as int),
{
    if n >= 0 {
        let r = u64_to_string(n as u64);
        r
    } else {
        let magnitude = (-(n as i64)) as u64;
        let mut r = String::new();
        push_char(&mut r, '-');
        push_u64_digits(&mut r, magnitude);
        proof {
            assert(Seq::<char>::empty() + seq!['-'] + spec_u64_digits(magnitude as int)
                =~= spec_i32_digits(n as int));
        }
        r
    }
}

} // verus!
