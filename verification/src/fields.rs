//! Lists of named fields: headers and query parameters.

use vstd::prelude::*;
use crate::text::{ascii_lower_spec, same, same_ignore_ascii_case};

verus! {

/// The fields of a list: names and values.
pub open spec fn fields(headers: Seq<(String, String)>) -> Seq<(Seq<char>, Seq<char>)> {
    headers.map_values(|h: (String, String)| (h.0@, h.1@))
}

/// The fields with the one named `name` set to `value`: in its place where there is one,
/// else at the end.
pub open spec fn with_field(f: Seq<(Seq<char>, Seq<char>)>, name: Seq<char>, value: Seq<char>) -> Seq<
    (Seq<char>, Seq<char>),
>
    decreases f.len(),
{
    if f.len() == 0 {
        seq![(name, value)]
    } else if f[0].0 == name {
        seq![(name, value)] + f.skip(1)
    } else {
        seq![f[0]] + with_field(f.skip(1), name, value)
    }
}

proof fn lemma_with_field_at(f: Seq<(Seq<char>, Seq<char>)>, name: Seq<char>, value: Seq<char>, i: int)
    requires
        0 <= i <= f.len(),
        forall|j: int| 0 <= j < i ==> (#[trigger] f[j]).0 != name,
        i < f.len() ==> f[i].0 == name,
    ensures
        with_field(f, name, value) == if i < f.len() {
            f.update(i, (name, value))
        } else {
            f.push((name, value))
        },
    decreases i,
{
    if i == 0 {
        if f.len() == 0 {
            assert(with_field(f, name, value) =~= f.push((name, value)));
        } else {
            assert(with_field(f, name, value) =~= f.update(0, (name, value)));
        }
    } else {
        let t = f.skip(1);
        assert forall|j: int| 0 <= j < i - 1 implies (#[trigger] t[j]).0 != name by {
            assert(t[j] == f[j + 1]);
        }
        lemma_with_field_at(t, name, value, i - 1);
        if i < f.len() {
            assert(seq![f[0]] + t.update(i - 1, (name, value)) =~= f.update(i, (name, value)));
        } else {
            assert(seq![f[0]] + t.push((name, value)) =~= f.push((name, value)));
        }
    }
}

/// Sets the field named `name`. No name is added twice.
pub fn set_field(headers: &mut Vec<(String, String)>, name: String, value: String)
    ensures
        fields(final(headers)@) == with_field(fields(old(headers)@), name@, value@),
        has_distinct_names(fields(old(headers)@)) ==> has_distinct_names(fields(final(headers)@)),
{
    proof {
        if has_distinct_names(fields(headers@)) {
            lemma_set_field_distinct(fields(headers@), name@, value@);
        }
    }
    let ghost f = fields(headers@);
    let ghost h0 = headers@;
    let mut i: usize = 0;
    while i < headers.len()
        invariant
            i <= headers@.len(),
            headers@ == h0,
            h0 == old(headers)@,
            f == fields(h0),
            forall|j: int| 0 <= j < i ==> (#[trigger] f[j]).0 != name@,
        decreases headers.len() - i,
    {
        assert(f[i as int] == (headers@[i as int].0@, headers@[i as int].1@));
        if same(headers[i].0.as_str(), name.as_str()) {
            proof {
                lemma_with_field_at(f, name@, value@, i as int);
            }
            let ghost n = name@;
            let ghost v = value@;
            headers.set(i, (name, value));
            assert(fields(headers@) =~= f.update(i as int, (n, v)));
            return ;
        }
        i += 1;
    }
    proof {
        lemma_with_field_at(f, name@, value@, i as int);
    }
    let ghost n = name@;
    let ghost v = value@;
    headers.push((name, value));
    assert(fields(headers@) =~= f.push((n, v)));
}

/// The value of the first field named `name`.
pub open spec fn field_of(f: Seq<(Seq<char>, Seq<char>)>, name: Seq<char>) -> Option<Seq<char>>
    decreases f.len(),
{
    if f.len() == 0 {
        None
    } else if f[0].0 == name {
        Some(f[0].1)
    } else {
        field_of(f.skip(1), name)
    }
}

/// The value of the first field named `name`.
pub fn get_field(list: &Vec<(String, String)>, name: &str) -> (r: Option<String>)
    ensures
        match r {
            Some(v) => field_of(fields(list@), name@) == Some(v@),
            None => field_of(fields(list@), name@) is None,
        },
{
    let ghost f = fields(list@);
    let mut i: usize = 0;
    assert(f.skip(0) =~= f);
    while i < list.len()
        invariant
            i <= list@.len(),
            f == fields(list@),
            field_of(f, name@) == field_of(f.skip(i as int), name@),
        decreases list.len() - i,
    {
        let ghost rest = f.skip(i as int);
        assert(rest[0] == (list@[i as int].0@, list@[i as int].1@));
        if same(list[i].0.as_str(), name) {
            return Some(list[i].1.clone());
        }
        assert(rest.skip(1) =~= f.skip(i + 1));
        i += 1;
    }
    None
}

/// A field that was set reads back, and no other field changes.
pub proof fn law_set_field(
    f: Seq<(Seq<char>, Seq<char>)>,
    name: Seq<char>,
    value: Seq<char>,
    other: Seq<char>,
)
    ensures
        field_of(with_field(f, name, value), name) == Some(value),
        other != name ==> field_of(with_field(f, name, value), other) == field_of(f, other),
    decreases f.len(),
{
    let g = with_field(f, name, value);
    if f.len() == 0 {
        assert(g.skip(1) =~= f);
    } else if f[0].0 == name {
        assert(g.skip(1) =~= f.skip(1));
    } else {
        law_set_field(f.skip(1), name, value, other);
        assert(g.skip(1) =~= with_field(f.skip(1), name, value));
    }
}

/// Copies a list of fields.
pub fn copy_fields(list: &Vec<(String, String)>) -> (r: Vec<(String, String)>)
    ensures
        r@ == list@,
{
    let mut r: Vec<(String, String)> = Vec::new();
    let mut i: usize = 0;
    while i < list.len()
        invariant
            i <= list@.len(),
            r@ == list@.take(i as int),
        decreases list.len() - i,
    {
        r.push((list[i].0.clone(), list[i].1.clone()));
        i += 1;
        assert(r@ =~= list@.take(i as int));
    }
    assert(list@.take(list@.len() as int) =~= list@);
    r
}

/// The fields with each of `more` set, in order.
pub open spec fn with_fields(f: Seq<(Seq<char>, Seq<char>)>, more: Seq<(Seq<char>, Seq<char>)>) -> Seq<
    (Seq<char>, Seq<char>),
>
    decreases more.len(),
{
    if more.len() == 0 {
        f
    } else {
        with_field(with_fields(f, more.drop_last()), more.last().0, more.last().1)
    }
}

/// Sets each of the fields of `more`, in order. No name is added twice.
pub fn set_fields(list: &mut Vec<(String, String)>, more: &Vec<(String, String)>)
    ensures
        fields(final(list)@) == with_fields(fields(old(list)@), fields(more@)),
        has_distinct_names(fields(old(list)@)) ==> has_distinct_names(fields(final(list)@)),
{
    let ghost start = fields(list@);
    let mut i: usize = 0;
    assert(fields(more@.take(0)).len() == 0);
    while i < more.len()
        invariant
            i <= more@.len(),
            start == fields(old(list)@),
            fields(list@) == with_fields(start, fields(more@.take(i as int))),
            has_distinct_names(start) ==> has_distinct_names(fields(list@)),
        decreases more.len() - i,
    {
        set_field(list, more[i].0.clone(), more[i].1.clone());
        proof {
            let b = fields(more@.take(i + 1));
            assert(b.drop_last() =~= fields(more@.take(i as int)));
            assert(b.last() == (more@[i as int].0@, more@[i as int].1@));
        }
        i += 1;
    }
    assert(more@.take(more@.len() as int) =~= more@);
}

/// Whether no two fields have the same name.
pub open spec fn has_distinct_names(f: Seq<(Seq<char>, Seq<char>)>) -> bool {
    forall|i: int, j: int| 0 <= i < j < f.len() ==> (#[trigger] f[i]).0 != (#[trigger] f[j]).0
}

/// Where no two of the fields that are set have the same name, each of them reads back, and
/// every other field stays as it was.
pub proof fn law_set_fields(
    f: Seq<(Seq<char>, Seq<char>)>,
    more: Seq<(Seq<char>, Seq<char>)>,
    name: Seq<char>,
)
    requires
        has_distinct_names(more),
    ensures
        field_of(with_fields(f, more), name) == match field_of(more, name) {
            Some(v) => Some(v),
            None => field_of(f, name),
        },
    decreases more.len(),
{
    if more.len() > 0 {
        let most = more.drop_last();
        assert forall|i: int, j: int| 0 <= i < j < most.len() implies (#[trigger] most[i]).0 != (
        #[trigger] most[j]).0 by {
            assert(most[i] == more[i] && most[j] == more[j]);
        }
        law_set_fields(f, most, name);
        law_set_field(with_fields(f, most), more.last().0, more.last().1, name);
        lemma_field_of_push(most, more.last(), name);
        assert(most.push(more.last()) =~= more);
        if name == more.last().0 {
            assert forall|i: int| 0 <= i < most.len() implies (#[trigger] most[i]).0 != name by {
                assert(more[i].0 != more[more.len() - 1].0);
            }
            lemma_no_field(most, name);
        }
    }
}

proof fn lemma_no_field(f: Seq<(Seq<char>, Seq<char>)>, name: Seq<char>)
    requires
        forall|i: int| 0 <= i < f.len() ==> (#[trigger] f[i]).0 != name,
    ensures
        field_of(f, name) is None,
    decreases f.len(),
{
    if f.len() > 0 {
        let rest = f.skip(1);
        assert forall|i: int| 0 <= i < rest.len() implies (#[trigger] rest[i]).0 != name by {
            assert(rest[i] == f[i + 1]);
        }
        lemma_no_field(rest, name);
    }
}

proof fn lemma_field_of_push(
    f: Seq<(Seq<char>, Seq<char>)>,
    last: (Seq<char>, Seq<char>),
    name: Seq<char>,
)
    ensures
        field_of(f.push(last), name) == match field_of(f, name) {
            Some(v) => Some(v),
            None => if last.0 == name {
                Some(last.1)
            } else {
                None
            },
        },
    decreases f.len(),
{
    let g = f.push(last);
    if f.len() == 0 {
        assert(g.skip(1) =~= f);
    } else {
        lemma_field_of_push(f.skip(1), last, name);
        assert(g.skip(1) =~= f.skip(1).push(last));
        assert(g[0] == f[0]);
    }
}

/// Setting fields adds no name twice.
pub proof fn lemma_set_fields_distinct(
    f: Seq<(Seq<char>, Seq<char>)>,
    more: Seq<(Seq<char>, Seq<char>)>,
)
    requires
        has_distinct_names(f),
    ensures
        has_distinct_names(with_fields(f, more)),
    decreases more.len(),
{
    if more.len() > 0 {
        lemma_set_fields_distinct(f, more.drop_last());
        lemma_set_field_distinct(
            with_fields(f, more.drop_last()),
            more.last().0,
            more.last().1,
        );
    }
}

proof fn lemma_set_field_distinct(f: Seq<(Seq<char>, Seq<char>)>, name: Seq<char>, value: Seq<char>)
    requires
        has_distinct_names(f),
    ensures
        has_distinct_names(with_field(f, name, value)),
{
    if exists|i: int| 0 <= i < f.len() && (#[trigger] f[i]).0 == name {
        let i = choose|i: int| 0 <= i < f.len() && (#[trigger] f[i]).0 == name;
        assert forall|j: int| 0 <= j < i implies (#[trigger] f[j]).0 != name by {
            assert(f[j].0 != f[i].0);
        }
        lemma_with_field_at(f, name, value, i);
        let g = f.update(i, (name, value));
        assert forall|a: int, b: int| 0 <= a < b < g.len() implies (#[trigger] g[a]).0 != (
        #[trigger] g[b]).0 by {
            assert(g[a].0 == f[a].0 && g[b].0 == f[b].0);
        }
    } else {
        lemma_with_field_at(f, name, value, f.len() as int);
        let g = f.push((name, value));
        assert forall|a: int, b: int| 0 <= a < b < g.len() implies (#[trigger] g[a]).0 != (
        #[trigger] g[b]).0 by {
            assert(g[a] == f[a]);
            if b < f.len() {
                assert(g[b] == f[b]);
            }
        }
    }
}

/// Appends the fields of `more`.
pub fn append_fields(list: &mut Vec<(String, String)>, more: &Vec<(String, String)>)
    ensures
        final(list)@ == old(list)@ + more@,
{
    let mut added = copy_fields(more);
    list.append(&mut added);
}

/// The fields of `defaults` whose names `given` does not have.
pub open spec fn not_given(
    defaults: Seq<(Seq<char>, Seq<char>)>,
    given: Seq<(Seq<char>, Seq<char>)>,
) -> Seq<(Seq<char>, Seq<char>)>
    decreases defaults.len(),
{
    if defaults.len() == 0 {
        Seq::empty()
    } else {
        let rest = not_given(defaults.drop_last(), given);
        if field_of(given, defaults.last().0) is Some {
            rest
        } else {
            rest.push(defaults.last())
        }
    }
}

/// The default fields that are not given, and behind them the given ones.
pub fn over_defaults(defaults: &Vec<(String, String)>, given: &Vec<(String, String)>) -> (r: Vec<
    (String, String),
>)
    ensures
        fields(r@) == not_given(fields(defaults@), fields(given@)) + fields(given@),
{
    let ghost all = fields(defaults@);
    let ghost g = fields(given@);
    let mut r: Vec<(String, String)> = Vec::new();
    let mut i: usize = 0;
    assert(fields(r@) =~= not_given(all.take(0), g));
    while i < defaults.len()
        invariant
            i <= defaults@.len(),
            all == fields(defaults@),
            g == fields(given@),
            fields(r@) == not_given(all.take(i as int), g),
        decreases defaults.len() - i,
    {
        let name = defaults[i].0.as_str();
        let value = defaults[i].1.as_str();
        assert(all.take(i + 1).drop_last() =~= all.take(i as int));
        assert(all.take(i + 1).last() == (name@, value@));
        if get_field(given, name).is_none() {
            let ghost before = r@;
            r.push((name.to_owned(), value.to_owned()));
            assert(fields(r@) =~= fields(before).push((name@, value@)));
        }
        i += 1;
    }
    assert(all.take(all.len() as int) =~= all);
    let ghost kept = r@;
    append_fields(&mut r, given);
    assert(fields(r@) =~= fields(kept) + fields(given@));
    r
}

/// A default stays exactly where nothing of its name is given.
pub proof fn law_given_fields_win(
    defaults: Seq<(Seq<char>, Seq<char>)>,
    given: Seq<(Seq<char>, Seq<char>)>,
    field: (Seq<char>, Seq<char>),
)
    ensures
        not_given(defaults, given).contains(field) <==> defaults.contains(field) && field_of(
            given,
            field.0,
        ) is None,
    decreases defaults.len(),
{
    if defaults.len() > 0 {
        let most = defaults.drop_last();
        let last = defaults.last();
        law_given_fields_win(most, given, field);
        assert(defaults =~= most.push(last));
        lemma_push_contains(most, last, field);
        lemma_push_contains(not_given(most, given), last, field);
    }
}

/// Where neither the defaults nor what is given names anything twice, what they come to together
/// does not either.
pub proof fn law_overridden_fields_are_distinct(
    defaults: Seq<(Seq<char>, Seq<char>)>,
    given: Seq<(Seq<char>, Seq<char>)>,
)
    requires
        has_distinct_names(defaults),
        has_distinct_names(given),
    ensures
        has_distinct_names(not_given(defaults, given) + given),
{
    let kept = not_given(defaults, given);
    let all = kept + given;
    lemma_not_given_distinct(defaults, given);
    assert forall|i: int, j: int| 0 <= i < j < all.len() implies (#[trigger] all[i]).0 != (
    #[trigger] all[j]).0 by {
        if j < kept.len() {
            assert(all[i] == kept[i] && all[j] == kept[j]);
        } else if i < kept.len() {
            assert(all[i] == kept[i] && all[j] == given[j - kept.len()]);
            assert(kept.contains(kept[i]));
            law_given_fields_win(defaults, given, kept[i]);
            if kept[i].0 == given[j - kept.len()].0 {
                lemma_named_field(given, j - kept.len());
            }
        } else {
            assert(all[i] == given[i - kept.len()] && all[j] == given[j - kept.len()]);
        }
    }
}

proof fn lemma_not_given_distinct(
    defaults: Seq<(Seq<char>, Seq<char>)>,
    given: Seq<(Seq<char>, Seq<char>)>,
)
    requires
        has_distinct_names(defaults),
    ensures
        has_distinct_names(not_given(defaults, given)),
    decreases defaults.len(),
{
    if defaults.len() > 0 {
        let most = defaults.drop_last();
        let last = defaults.last();
        assert forall|i: int, j: int| 0 <= i < j < most.len() implies (#[trigger] most[i]).0 != (
        #[trigger] most[j]).0 by {
            assert(most[i] == defaults[i] && most[j] == defaults[j]);
        }
        lemma_not_given_distinct(most, given);
        let rest = not_given(most, given);
        let all = rest.push(last);
        assert forall|i: int, j: int| 0 <= i < j < all.len() implies (#[trigger] all[i]).0 != (
        #[trigger] all[j]).0 by {
            assert(all[i] == rest[i]);
            if j < rest.len() {
                assert(all[j] == rest[j]);
            } else {
                assert(rest.contains(rest[i]));
                law_given_fields_win(most, given, rest[i]);
                let k = choose|k: int| 0 <= k < most.len() && most[k] == rest[i];
                assert(defaults[k].0 != defaults[defaults.len() - 1].0);
            }
        }
    }
}

/// A name that a list has is found in it.
pub proof fn lemma_named_field(f: Seq<(Seq<char>, Seq<char>)>, i: int)
    requires
        0 <= i < f.len(),
    ensures
        field_of(f, f[i].0) is Some,
    decreases f.len(),
{
    if i > 0 && f[0].0 != f[i].0 {
        assert(f.skip(1)[i - 1] == f[i]);
        lemma_named_field(f.skip(1), i - 1);
    }
}

proof fn lemma_push_contains(
    s: Seq<(Seq<char>, Seq<char>)>,
    last: (Seq<char>, Seq<char>),
    x: (Seq<char>, Seq<char>),
)
    ensures
        s.push(last).contains(x) == (s.contains(x) || x == last),
{
    let t = s.push(last);
    if s.contains(x) {
        let i = choose|i: int| 0 <= i < s.len() && s[i] == x;
        assert(t[i] == x);
    }
    if x == last {
        assert(t[s.len() as int] == x);
    }
    if t.contains(x) {
        let i = choose|i: int| 0 <= i < t.len() && t[i] == x;
        if i < s.len() {
            assert(s[i] == x);
        }
    }
}

/// The headers with the one named `name`, whatever its case, set to `value`: in its place where
/// there is one, else at the end.
pub open spec fn with_header(f: Seq<(Seq<char>, Seq<char>)>, name: Seq<char>, value: Seq<char>) -> Seq<
    (Seq<char>, Seq<char>),
>
    decreases f.len(),
{
    if f.len() == 0 {
        seq![(name, value)]
    } else if ascii_lower_spec(f[0].0) == ascii_lower_spec(name) {
        seq![(name, value)] + f.skip(1)
    } else {
        seq![f[0]] + with_header(f.skip(1), name, value)
    }
}

proof fn lemma_with_header_at(f: Seq<(Seq<char>, Seq<char>)>, name: Seq<char>, value: Seq<char>, i: int)
    requires
        0 <= i <= f.len(),
        forall|j: int| 0 <= j < i ==> ascii_lower_spec((#[trigger] f[j]).0) != ascii_lower_spec(name),
        i < f.len() ==> ascii_lower_spec(f[i].0) == ascii_lower_spec(name),
    ensures
        with_header(f, name, value) == if i < f.len() {
            f.update(i, (name, value))
        } else {
            f.push((name, value))
        },
    decreases i,
{
    if i == 0 {
        if f.len() == 0 {
            assert(with_header(f, name, value) =~= f.push((name, value)));
        } else {
            assert(with_header(f, name, value) =~= f.update(0, (name, value)));
        }
    } else {
        let t = f.skip(1);
        assert forall|j: int| 0 <= j < i - 1 implies ascii_lower_spec((#[trigger] t[j]).0)
            != ascii_lower_spec(name) by {
            assert(t[j] == f[j + 1]);
        }
        lemma_with_header_at(t, name, value, i - 1);
        if i < f.len() {
            assert(seq![f[0]] + t.update(i - 1, (name, value)) =~= f.update(i, (name, value)));
        } else {
            assert(seq![f[0]] + t.push((name, value)) =~= f.push((name, value)));
        }
    }
}

/// Sets the header named `name`, whatever its case.
pub fn set_header(headers: &mut Vec<(String, String)>, name: String, value: String)
    ensures
        fields(final(headers)@) == with_header(fields(old(headers)@), name@, value@),
{
    let ghost f = fields(headers@);
    let mut i: usize = 0;
    while i < headers.len()
        invariant
            i <= headers@.len(),
            headers@ == old(headers)@,
            f == fields(headers@),
            forall|j: int|
                0 <= j < i ==> ascii_lower_spec((#[trigger] f[j]).0) != ascii_lower_spec(name@),
        decreases headers.len() - i,
    {
        assert(f[i as int] == (headers@[i as int].0@, headers@[i as int].1@));
        if same_ignore_ascii_case(headers[i].0.as_str(), name.as_str()) {
            proof {
                lemma_with_header_at(f, name@, value@, i as int);
            }
            let ghost set = (name@, value@);
            headers.set(i, (name, value));
            assert(fields(headers@) =~= f.update(i as int, set));
            return ;
        }
        i += 1;
    }
    proof {
        lemma_with_header_at(f, name@, value@, i as int);
    }
    let ghost set = (name@, value@);
    headers.push((name, value));
    assert(fields(headers@) =~= f.push(set));
}

/// The value of the first header of a name, whatever its case.
pub open spec fn header_of(f: Seq<(Seq<char>, Seq<char>)>, name: Seq<char>) -> Option<Seq<char>>
    decreases f.len(),
{
    if f.len() == 0 {
        None
    } else if ascii_lower_spec(f[0].0) == ascii_lower_spec(name) {
        Some(f[0].1)
    } else {
        header_of(f.skip(1), name)
    }
}

/// A header that was set reads back under its name in any case, and no other header changes.
pub proof fn law_set_header(
    f: Seq<(Seq<char>, Seq<char>)>,
    name: Seq<char>,
    value: Seq<char>,
    other: Seq<char>,
)
    ensures
        header_of(with_header(f, name, value), other) == if ascii_lower_spec(other)
            == ascii_lower_spec(name) {
            Some(value)
        } else {
            header_of(f, other)
        },
    decreases f.len(),
{
    let g = with_header(f, name, value);
    if f.len() == 0 {
        assert(g.skip(1) =~= f);
    } else if ascii_lower_spec(f[0].0) == ascii_lower_spec(name) {
        assert(g.skip(1) =~= f.skip(1));
    } else {
        law_set_header(f.skip(1), name, value, other);
        assert(g.skip(1) =~= with_header(f.skip(1), name, value));
    }
}

/// Whether no two headers have the same name, whatever its case.
pub open spec fn has_distinct_headers(f: Seq<(Seq<char>, Seq<char>)>) -> bool {
    forall|i: int, j: int|
        0 <= i < j < f.len() ==> ascii_lower_spec((#[trigger] f[i]).0) != ascii_lower_spec(
            (#[trigger] f[j]).0,
        )
}

/// Setting a header adds no name twice.
pub proof fn lemma_set_header_distinct(f: Seq<(Seq<char>, Seq<char>)>, name: Seq<char>, value: Seq<char>)
    requires
        has_distinct_headers(f),
    ensures
        has_distinct_headers(with_header(f, name, value)),
{
    let n = ascii_lower_spec(name);
    if exists|i: int| 0 <= i < f.len() && ascii_lower_spec((#[trigger] f[i]).0) == n {
        let i = choose|i: int| 0 <= i < f.len() && ascii_lower_spec((#[trigger] f[i]).0) == n;
        assert forall|j: int| 0 <= j < i implies ascii_lower_spec((#[trigger] f[j]).0) != n by {
            assert(ascii_lower_spec(f[j].0) != ascii_lower_spec(f[i].0));
        }
        lemma_with_header_at(f, name, value, i);
        let g = f.update(i, (name, value));
        assert forall|a: int, b: int| 0 <= a < b < g.len() implies ascii_lower_spec(
            (#[trigger] g[a]).0,
        ) != ascii_lower_spec((#[trigger] g[b]).0) by {
            assert(ascii_lower_spec(f[a].0) != ascii_lower_spec(f[b].0));
        }
    } else {
        lemma_with_header_at(f, name, value, f.len() as int);
        let g = f.push((name, value));
        assert forall|a: int, b: int| 0 <= a < b < g.len() implies ascii_lower_spec(
            (#[trigger] g[a]).0,
        ) != ascii_lower_spec((#[trigger] g[b]).0) by {
            assert(g[a] == f[a]);
            if b < f.len() {
                assert(g[b] == f[b]);
            }
        }
    }
}

/// The headers with each of `more` set, in order.
pub open spec fn with_headers(f: Seq<(Seq<char>, Seq<char>)>, more: Seq<(Seq<char>, Seq<char>)>) -> Seq<
    (Seq<char>, Seq<char>),
>
    decreases more.len(),
{
    if more.len() == 0 {
        f
    } else {
        with_header(with_headers(f, more.drop_last()), more.last().0, more.last().1)
    }
}

/// Sets each of the headers of `more`, in order. No name is added twice.
pub fn set_headers(list: &mut Vec<(String, String)>, more: &Vec<(String, String)>)
    ensures
        fields(final(list)@) == with_headers(fields(old(list)@), fields(more@)),
        has_distinct_headers(fields(old(list)@)) ==> has_distinct_headers(fields(final(list)@)),
{
    let ghost start = fields(list@);
    let mut i: usize = 0;
    assert(fields(more@.take(0)).len() == 0);
    while i < more.len()
        invariant
            i <= more@.len(),
            start == fields(old(list)@),
            fields(list@) == with_headers(start, fields(more@.take(i as int))),
            has_distinct_headers(start) ==> has_distinct_headers(fields(list@)),
        decreases more.len() - i,
    {
        proof {
            let b = fields(more@.take(i + 1));
            assert(b.drop_last() =~= fields(more@.take(i as int)));
            assert(b.last() == (more@[i as int].0@, more@[i as int].1@));
            if has_distinct_headers(start) {
                lemma_set_header_distinct(fields(list@), more@[i as int].0@, more@[i as int].1@);
            }
        }
        set_header(list, more[i].0.clone(), more[i].1.clone());
        i += 1;
    }
    assert(more@.take(more@.len() as int) =~= more@);
}

/// Whether a list has a header, whatever the case of its name.
pub open spec fn has_header_name(f: Seq<(Seq<char>, Seq<char>)>, name: Seq<char>) -> bool {
    exists|i: int|
        0 <= i < f.len() && ascii_lower_spec((#[trigger] f[i]).0) == ascii_lower_spec(name)
}

/// The headers of `defaults` whose names `given` does not have, whatever their case.
pub open spec fn headers_not_given(
    defaults: Seq<(Seq<char>, Seq<char>)>,
    given: Seq<(Seq<char>, Seq<char>)>,
) -> Seq<(Seq<char>, Seq<char>)>
    decreases defaults.len(),
{
    if defaults.len() == 0 {
        Seq::empty()
    } else {
        let rest = headers_not_given(defaults.drop_last(), given);
        if has_header_name(given, defaults.last().0) {
            rest
        } else {
            rest.push(defaults.last())
        }
    }
}

/// A default header stays exactly where no header of its name is given.
pub proof fn law_given_headers_replace_defaults(
    defaults: Seq<(Seq<char>, Seq<char>)>,
    given: Seq<(Seq<char>, Seq<char>)>,
    header: (Seq<char>, Seq<char>),
)
    ensures
        headers_not_given(defaults, given).contains(header) <==> defaults.contains(header)
            && !has_header_name(given, header.0),
    decreases defaults.len(),
{
    if defaults.len() > 0 {
        let most = defaults.drop_last();
        let last = defaults.last();
        law_given_headers_replace_defaults(most, given, header);
        assert(defaults =~= most.push(last));
        lemma_push_contains(most, last, header);
        lemma_push_contains(headers_not_given(most, given), last, header);
    }
}

fn names_header(list: &Vec<(String, String)>, name: &str) -> (r: bool)
    ensures
        r == has_header_name(fields(list@), name@),
{
    let ghost f = fields(list@);
    let mut i: usize = 0;
    while i < list.len()
        invariant
            i <= list@.len(),
            f == fields(list@),
            forall|j: int|
                0 <= j < i ==> ascii_lower_spec((#[trigger] f[j]).0) != ascii_lower_spec(name@),
        decreases list.len() - i,
    {
        assert(f[i as int].0 == list@[i as int].0@);
        if same_ignore_ascii_case(list[i].0.as_str(), name) {
            return true;
        }
        i += 1;
    }
    false
}

/// The default headers that are not given, and behind them the given ones.
pub fn over_default_headers(defaults: &Vec<(String, String)>, given: &Vec<(String, String)>) -> (r: Vec<
    (String, String),
>)
    ensures
        fields(r@) == headers_not_given(fields(defaults@), fields(given@)) + fields(given@),
{
    let ghost all = fields(defaults@);
    let ghost g = fields(given@);
    let mut r: Vec<(String, String)> = Vec::new();
    let mut i: usize = 0;
    assert(fields(r@) =~= headers_not_given(all.take(0), g));
    while i < defaults.len()
        invariant
            i <= defaults@.len(),
            all == fields(defaults@),
            g == fields(given@),
            fields(r@) == headers_not_given(all.take(i as int), g),
        decreases defaults.len() - i,
    {
        let name = defaults[i].0.as_str();
        let value = defaults[i].1.as_str();
        assert(all.take(i + 1).drop_last() =~= all.take(i as int));
        assert(all.take(i + 1).last() == (name@, value@));
        if !names_header(given, name) {
            let ghost before = r@;
            r.push((name.to_owned(), value.to_owned()));
            assert(fields(r@) =~= fields(before).push((name@, value@)));
        }
        i += 1;
    }
    assert(all.take(all.len() as int) =~= all);
    let ghost kept = r@;
    append_fields(&mut r, given);
    assert(fields(r@) =~= fields(kept) + fields(given@));
    r
}

} // verus!
