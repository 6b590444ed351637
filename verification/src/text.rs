//! Text building blocks for command-line arguments.
use vstd::prelude::*;

verus! {

/// The decimal digit character for `d` (`d < 10`).
pub open spec fn digit_char(d: nat) -> char {
    if d == 0 { '0' }
    else if d == 1 { '1' }
    else if d == 2 { '2' }
    else if d == 3 { '3' }
    else if d == 4 { '4' }
    else if d == 5 { '5' }
    else if d == 6 { '6' }
    else if d == 7 { '7' }
    else if d == 8 { '8' }
    else { '9' }
}

/// The decimal representation of `n`, without leading zeros.
pub open spec fn decimal(n: nat) -> Seq<char>
    decreases n,
{
    if n < 10 {
        seq![digit_char(n)]
    } else {
        decimal(n / 10) + seq![digit_char(n % 10)]
    }
}

fn digit_str(d: u32) -> (s: &'static str)
    requires
        d < 10,
    ensures
        s@ == seq![digit_char(d as nat)],
{
    proof {
        reveal_strlit("0");
        reveal_strlit("1");
        reveal_strlit("2");
        reveal_strlit("3");
        reveal_strlit("4");
        reveal_strlit("5");
        reveal_strlit("6");
        reveal_strlit("7");
        reveal_strlit("8");
        reveal_strlit("9");
    }
    if d == 0 { "0" }
    else if d == 1 { "1" }
    else if d == 2 { "2" }
    else if d == 3 { "3" }
    else if d == 4 { "4" }
    else if d == 5 { "5" }
    else if d == 6 { "6" }
    else if d == 7 { "7" }
    else if d == 8 { "8" }
    else { "9" }
}

/// Formats `n` in decimal.
pub fn u32_to_decimal(n: u32) -> (s: String)
    ensures
        s@ == decimal(n as nat),
    decreases n,
{
    if n < 10 {
        String::from_str(digit_str(n))
    } else {
        let prefix = u32_to_decimal(n / 10);
        prefix.concat(digit_str(n % 10))
    }
}

} // verus!

verus! {

/// `[arg]` when `on` holds, nothing otherwise.
pub open spec fn flag_arg(on: bool, arg: Seq<char>) -> Seq<Seq<char>> {
    if on { seq![arg] } else { seq![] }
}

/// Each item with `prefix` in front of it, in order.
pub open spec fn each_prefixed(prefix: Seq<char>, items: Seq<Seq<char>>) -> Seq<Seq<char>> {
    items.map_values(|item: Seq<char>| prefix + item)
}

/// Each `(key, value)` pair written as `<prefix><key>=<value>`, in order.
pub open spec fn each_pair(prefix: Seq<char>, pairs: Seq<(Seq<char>, Seq<char>)>) -> Seq<Seq<char>> {
    pairs.map_values(|p: (Seq<char>, Seq<char>)| prefix + p.0 + "="@ + p.1)
}

/// `[<prefix><value>]` when a value is set, nothing otherwise.
pub open spec fn opt_prefixed(prefix: Seq<char>, value: Option<Seq<char>>) -> Seq<Seq<char>> {
    match value {
        Some(v) => seq![prefix + v],
        None => seq![],
    }
}

/// `[value]` when a value is set, nothing otherwise.
pub open spec fn opt_value(value: Option<Seq<char>>) -> Seq<Seq<char>> {
    match value {
        Some(v) => seq![v],
        None => seq![],
    }
}

/// How a boolean is written on the command line.
pub open spec fn bool_text(b: bool) -> Seq<char> {
    if b { "true"@ } else { "false"@ }
}

/// `[<prefix>true]` or `[<prefix>false]` when a value is set, nothing otherwise.
pub open spec fn opt_bool(prefix: Seq<char>, value: Option<bool>) -> Seq<Seq<char>> {
    match value {
        Some(b) => seq![prefix + bool_text(b)],
        None => seq![],
    }
}

/// `[<prefix><n in decimal>]` when a count is set, nothing otherwise.
pub open spec fn opt_count(prefix: Seq<char>, value: Option<u32>) -> Seq<Seq<char>> {
    match value {
        Some(n) => seq![prefix + decimal(n as nat)],
        None => seq![],
    }
}

/// Adding an item to a list adds its prefixed form at the end.
pub proof fn lemma_each_prefixed_push(prefix: Seq<char>, items: Seq<Seq<char>>, item: Seq<char>)
    ensures
        each_prefixed(prefix, items.push(item)) == each_prefixed(prefix, items).push(prefix + item),
{
    assert(each_prefixed(prefix, items.push(item)) =~= each_prefixed(prefix, items).push(prefix + item));
}

/// Adding a pair to a list adds its written form at the end.
pub proof fn lemma_each_pair_push(prefix: Seq<char>, pairs: Seq<(Seq<char>, Seq<char>)>, key: Seq<char>, value: Seq<char>)
    ensures
        each_pair(prefix, pairs.push((key, value))) == each_pair(prefix, pairs).push(prefix + key + "="@ + value),
{
    assert(each_pair(prefix, pairs.push((key, value))) =~= each_pair(prefix, pairs).push(prefix + key + "="@ + value));
}

/// Where a segment of a list gains an item at its end, the whole list gains
/// that item at the segment's end.
pub proof fn lemma_append_push<T>(front: Seq<T>, segment: Seq<T>, item: T)
    ensures
        front + segment.push(item) == (front + segment).insert((front.len() + segment.len()) as int, item),
{
    assert(front + segment.push(item) =~= (front + segment).insert((front.len() + segment.len()) as int, item));
}

/// An insertion stays where it is when more items follow.
pub proof fn lemma_insert_append<T>(s: Seq<T>, i: int, item: T, tail: Seq<T>)
    requires
        0 <= i <= s.len(),
    ensures
        s.insert(i, item) + tail == (s + tail).insert(i, item),
{
    assert(s.insert(i, item) + tail =~= (s + tail).insert(i, item));
}

/// An insertion moves along by the length of what is put in front.
pub proof fn lemma_prepend_insert<T>(front: Seq<T>, s: Seq<T>, i: int, item: T)
    requires
        0 <= i <= s.len(),
    ensures
        front + s.insert(i, item) == (front + s).insert(front.len() + i, item),
{
    assert(front + s.insert(i, item) =~= (front + s).insert(front.len() + i, item));
}

/// An item of a list is an item of the list with more after it.
pub proof fn lemma_contains_append<T>(s: Seq<T>, tail: Seq<T>, x: T)
    requires
        s.contains(x),
    ensures
        (s + tail).contains(x),
{
    let i = choose|i: int| 0 <= i < s.len() && s[i] == x;
    assert((s + tail)[i] == x);
}

/// An item of a list is an item of the list with more before it.
pub proof fn lemma_contains_prepend<T>(front: Seq<T>, s: Seq<T>, x: T)
    requires
        s.contains(x),
    ensures
        (front + s).contains(x),
{
    let i = choose|i: int| 0 <= i < s.len() && s[i] == x;
    assert((front + s)[front.len() + i] == x);
}

/// The views of a list of strings.
pub open spec fn views(items: Seq<&str>) -> Seq<Seq<char>> {
    items.map_values(|s: &str| s@)
}

/// Appends a copy of `s`.
pub fn push_str(args: &mut Vec<String>, s: &str)
    ensures
        final(args).deep_view() == old(args).deep_view().push(s@),
{
    let ghost start = args.deep_view();
    args.push(String::from_str(s));
    assert(args.deep_view() =~= start.push(s@));
}

/// Appends `arg` when `on` holds.
pub fn push_flag(args: &mut Vec<String>, on: bool, arg: &str)
    ensures
        final(args).deep_view() == old(args).deep_view() + flag_arg(on, arg@),
{
    let ghost start = args.deep_view();
    if on {
        push_str(args, arg);
    }
    assert(args.deep_view() =~= start + flag_arg(on, arg@));
}

/// Appends `<prefix><value>` as one argument.
pub fn push_joined(args: &mut Vec<String>, prefix: &str, value: &str)
    ensures
        final(args).deep_view() == old(args).deep_view().push(prefix@ + value@),
{
    let ghost start = args.deep_view();
    args.push(String::from_str(prefix).concat(value));
    assert(args.deep_view() =~= start.push(prefix@ + value@));
}

/// Appends every item of `items` with `prefix` in front of it.
pub fn push_prefixed(args: &mut Vec<String>, prefix: &str, items: &Vec<String>)
    ensures
        final(args).deep_view() == old(args).deep_view() + each_prefixed(prefix@, items.deep_view()),
{
    let ghost start = args.deep_view();
    let mut i: usize = 0;
    while i < items.len()
        invariant
            i <= items.len(),
            args.deep_view() == start + each_prefixed(prefix@, items.deep_view().take(i as int)),
        decreases items.len() - i,
    {
        let ghost before = args.deep_view();
        push_joined(args, prefix, items[i].as_str());
        assert(items.deep_view().take(i + 1) =~= items.deep_view().take(i as int).push(items[i as int]@));
        assert(each_prefixed(prefix@, items.deep_view().take(i + 1)) =~= each_prefixed(prefix@, items.deep_view().take(i as int)).push(prefix@ + items[i as int]@));
        assert(args.deep_view() =~= start + each_prefixed(prefix@, items.deep_view().take(i + 1)));
        i += 1;
    }
    assert(items.deep_view().take(i as int) =~= items.deep_view());
}

/// Appends every pair of `pairs` as `<prefix><key>=<value>`.
pub fn push_pairs(args: &mut Vec<String>, prefix: &str, pairs: &Vec<(String, String)>)
    ensures
        final(args).deep_view() == old(args).deep_view() + each_pair(prefix@, pairs.deep_view()),
{
    let ghost start = args.deep_view();
    let mut i: usize = 0;
    while i < pairs.len()
        invariant
            i <= pairs.len(),
            args.deep_view() == start + each_pair(prefix@, pairs.deep_view().take(i as int)),
        decreases pairs.len() - i,
    {
        let pair = &pairs[i];
        let arg = String::from_str(prefix).concat(pair.0.as_str()).concat("=").concat(pair.1.as_str());
        let ghost before = args.deep_view();
        args.push(arg);
        assert(args.deep_view() =~= before.push(prefix@ + pair.0@ + "="@ + pair.1@));
        assert(pairs.deep_view().take(i + 1) =~= pairs.deep_view().take(i as int).push(pairs.deep_view()[i as int]));
        assert(each_pair(prefix@, pairs.deep_view().take(i + 1)) =~= each_pair(prefix@, pairs.deep_view().take(i as int)).push(prefix@ + pair.0@ + "="@ + pair.1@));
        assert(args.deep_view() =~= start + each_pair(prefix@, pairs.deep_view().take(i + 1)));
        i += 1;
    }
    assert(pairs.deep_view().take(i as int) =~= pairs.deep_view());
}

/// Appends `<prefix><value>` when a value is set.
pub fn push_opt(args: &mut Vec<String>, prefix: &str, value: &Option<String>)
    ensures
        final(args).deep_view() == old(args).deep_view() + opt_prefixed(prefix@, value.deep_view()),
{
    let ghost start = args.deep_view();
    match value {
        Some(v) => push_joined(args, prefix, v.as_str()),
        None => {},
    }
    assert(args.deep_view() =~= start + opt_prefixed(prefix@, value.deep_view()));
}

/// Appends a copy of the value when one is set.
pub fn push_opt_value(args: &mut Vec<String>, value: &Option<String>)
    ensures
        final(args).deep_view() == old(args).deep_view() + opt_value(value.deep_view()),
{
    let ghost start = args.deep_view();
    match value {
        Some(v) => push_str(args, v.as_str()),
        None => {},
    }
    assert(args.deep_view() =~= start + opt_value(value.deep_view()));
}

/// Appends the pair `(a, b)`.
pub fn push_pair(pairs: &mut Vec<(String, String)>, a: &str, b: &str)
    ensures
        final(pairs).deep_view() == old(pairs).deep_view().push((a@, b@)),
{
    let ghost start = pairs.deep_view();
    pairs.push((String::from_str(a), String::from_str(b)));
    assert(pairs.deep_view() =~= start.push((a@, b@)));
}

/// Appends `<prefix>true` or `<prefix>false` when a value is set.
pub fn push_opt_bool(args: &mut Vec<String>, prefix: &str, value: Option<bool>)
    ensures
        final(args).deep_view() == old(args).deep_view() + opt_bool(prefix@, value),
{
    let ghost start = args.deep_view();
    match value {
        Some(b) => {
            if b {
                push_joined(args, prefix, "true");
            } else {
                push_joined(args, prefix, "false");
            }
        },
        None => {},
    }
    assert(args.deep_view() =~= start + opt_bool(prefix@, value));
}

/// Appends `<prefix><n>` with `n` in decimal when a count is set.
pub fn push_opt_count(args: &mut Vec<String>, prefix: &str, value: Option<u32>)
    ensures
        final(args).deep_view() == old(args).deep_view() + opt_count(prefix@, value),
{
    let ghost start = args.deep_view();
    match value {
        Some(n) => {
            let digits = u32_to_decimal(n);
            push_joined(args, prefix, digits.as_str());
        },
        None => {},
    }
    assert(args.deep_view() =~= start + opt_count(prefix@, value));
}

/// Appends copies of all of `items`, in order.
pub fn push_all(args: &mut Vec<String>, items: &Vec<String>)
    ensures
        final(args).deep_view() == old(args).deep_view() + items.deep_view(),
{
    let ghost start = args.deep_view();
    let mut i: usize = 0;
    while i < items.len()
        invariant
            i <= items.len(),
            args.deep_view() == start + items.deep_view().take(i as int),
        decreases items.len() - i,
    {
        push_str(args, items[i].as_str());
        assert(items.deep_view().take(i + 1) =~= items.deep_view().take(i as int).push(items[i as int]@));
        assert(args.deep_view() =~= start + items.deep_view().take(i + 1));
        i += 1;
    }
    assert(items.deep_view().take(i as int) =~= items.deep_view());
}

/// Appends copies of the items of `items` from position `from` on, in order.
pub fn push_from(args: &mut Vec<String>, items: &Vec<String>, from: usize)
    requires
        from <= items.len(),
    ensures
        final(args).deep_view() == old(args).deep_view() + items.deep_view().skip(from as int),
{
    let ghost start = args.deep_view();
    let mut i: usize = from;
    while i < items.len()
        invariant
            from <= i <= items.len(),
            args.deep_view() == start + items.deep_view().subrange(from as int, i as int),
        decreases items.len() - i,
    {
        push_str(args, items[i].as_str());
        assert(items.deep_view().subrange(from as int, i + 1) =~= items.deep_view().subrange(from as int, i as int).push(items[i as int]@));
        assert(args.deep_view() =~= start + items.deep_view().subrange(from as int, i + 1));
        i += 1;
    }
    assert(items.deep_view().subrange(from as int, i as int) =~= items.deep_view().skip(from as int));
}

/// A copy of a list of strings.
pub fn copy_strings(items: &Vec<String>) -> (r: Vec<String>)
    ensures
        r.deep_view() == items.deep_view(),
{
    let mut r: Vec<String> = Vec::new();
    push_all(&mut r, items);
    assert(r.deep_view() =~= items.deep_view());
    r
}

/// Owned copies of a list of string slices.
pub fn to_strings(items: &[&str]) -> (r: Vec<String>)
    ensures
        r.deep_view() == views(items@),
{
    let mut r: Vec<String> = Vec::new();
    let mut i: usize = 0;
    while i < items.len()
        invariant
            i <= items.len(),
            r.deep_view() == views(items@.take(i as int)),
        decreases items.len() - i,
    {
        let ghost before = r.deep_view();
        push_str(&mut r, items[i]);
        assert(views(items@.take(i + 1)) =~= views(items@.take(i as int)).push(items@[i as int]@));
        i += 1;
    }
    assert(items@.take(i as int) =~= items@);
    r
}

} // verus!
