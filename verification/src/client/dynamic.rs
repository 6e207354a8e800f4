//! Headers and parameters whose values the conformance adapter makes anew for each request.

use vstd::prelude::*;
use crate::decimal::{decimal, i64_text, signed_decimal, u64_text};
use crate::fields::{field_of, fields, get_field, has_distinct_names, lemma_named_field};
use crate::text::{same, text_opt};

verus! {

/// A header or parameter whose value is made anew for each request.
#[derive(Debug)]
pub struct DynamicValue {
    pub kind: String,
    pub counter: u64,
    pub token: Option<String>,
}

/// What a dynamic value holds.
#[verifier::ext_equal]
pub struct DynamicView {
    pub kind: Seq<char>,
    pub counter: u64,
    pub token: Option<Seq<char>>,
}

impl View for DynamicValue {
    type V = DynamicView;

    open spec fn view(&self) -> DynamicView {
        DynamicView { kind: self.kind@, counter: self.counter, token: text_opt(self.token) }
    }
}

/// The next value: a count, the time, a fixed token, or nothing.
pub open spec fn next_value(d: DynamicView, now_millis: int) -> Seq<char> {
    if d.kind == "counter"@ {
        decimal((d.counter + 1) as nat)
    } else if d.kind == "timestamp"@ {
        signed_decimal(now_millis)
    } else if d.kind == "token"@ {
        match d.token {
            Some(t) => t,
            None => Seq::empty(),
        }
    } else {
        Seq::empty()
    }
}

/// What is left after the next value was made.
pub open spec fn after_value(d: DynamicView) -> DynamicView {
    if d.kind == "counter"@ || d.kind == "timestamp"@ {
        DynamicView { counter: (d.counter + 1) as u64, ..d }
    } else {
        d
    }
}

/// Makes the next value.
pub fn next_dynamic_value(value: DynamicValue, now_millis: i64) -> (r: (DynamicValue, String))
    requires
        value.counter < u64::MAX,
    ensures
        r.0@ == after_value(value@),
        r.1@ == next_value(value@, now_millis as int),
{
    let mut value = value;
    let text = if same(value.kind.as_str(), "counter") {
        value.counter = value.counter + 1;
        u64_text(value.counter)
    } else if same(value.kind.as_str(), "timestamp") {
        value.counter = value.counter + 1;
        i64_text(now_millis)
    } else if same(value.kind.as_str(), "token") {
        match &value.token {
            Some(t) => t.clone(),
            None => {
                let empty = String::new();
                assert(empty@ =~= Seq::<char>::empty());
                empty
            },
        }
    } else {
        let empty = String::new();
        assert(empty@ =~= Seq::<char>::empty());
        empty
    };
    (value, text)
}

/// Dynamic values by name.
pub type Dynamic = Seq<(Seq<char>, DynamicView)>;

/// What a list of dynamic values holds.
pub open spec fn dynamic_of(list: Seq<(String, DynamicValue)>) -> Dynamic {
    list.map_values(|e: (String, DynamicValue)| (e.0@, e.1@))
}

/// The list without the value of a name.
pub open spec fn without_name(list: Dynamic, name: Seq<char>) -> Dynamic
    decreases list.len(),
{
    if list.len() == 0 {
        list
    } else if list.last().0 == name {
        without_name(list.drop_last(), name)
    } else {
        without_name(list.drop_last(), name).push(list.last())
    }
}

/// Whether no dynamic value is named twice.
pub open spec fn has_distinct_values(list: Dynamic) -> bool {
    forall|i: int, j: int| 0 <= i < j < list.len() ==> (#[trigger] list[i]).0 != (#[trigger] list[j]).0
}

/// Without the value of a name no value has the name, and none is named twice that was not.
pub proof fn lemma_without_name(list: Dynamic, name: Seq<char>)
    ensures
        forall|i: int|
            0 <= i < without_name(list, name).len() ==> (#[trigger] without_name(list, name)[i]).0
                != name && list.contains(without_name(list, name)[i]),
        has_distinct_values(list) ==> has_distinct_values(without_name(list, name)),
    decreases list.len(),
{
    if list.len() > 0 {
        let most = list.drop_last();
        let last = list.last();
        lemma_without_name(most, name);
        let rest = without_name(most, name);
        let r = without_name(list, name);
        assert(list[list.len() - 1] == last);
        assert forall|i: int| 0 <= i < r.len() implies (#[trigger] r[i]).0 != name && list.contains(
            r[i],
        ) by {
            if i < rest.len() {
                assert(r[i] == rest[i]);
                let k = choose|k: int| 0 <= k < most.len() && most[k] == rest[i];
                assert(list[k] == r[i]);
            }
        }
        if has_distinct_values(list) {
            assert forall|i: int, j: int| 0 <= i < j < most.len() implies (#[trigger] most[i]).0 != (
            #[trigger] most[j]).0 by {
                assert(most[i] == list[i] && most[j] == list[j]);
            }
            assert forall|i: int, j: int| 0 <= i < j < r.len() implies (#[trigger] r[i]).0 != (
            #[trigger] r[j]).0 by {
                assert(r[i] == rest[i]);
                if j < rest.len() {
                    assert(r[j] == rest[j]);
                } else {
                    let k = choose|k: int| 0 <= k < most.len() && most[k] == rest[i];
                    assert(list[k].0 != list[list.len() - 1].0);
                }
            }
        }
    }
}

/// Whether every count can go on.
pub open spec fn counts_fit(list: Seq<(String, DynamicValue)>) -> bool {
    forall|i: int| 0 <= i < list.len() ==> (#[trigger] list[i]).1.counter < u64::MAX
}

/// Sets the dynamic value of a name.
pub fn set_dynamic(list: Vec<(String, DynamicValue)>, name: String, value: DynamicValue) -> (r: Vec<
    (String, DynamicValue),
>)
    ensures
        dynamic_of(r@) == without_name(dynamic_of(list@), name@).push((name@, value@)),
        has_distinct_values(dynamic_of(list@)) ==> has_distinct_values(dynamic_of(r@)),
        counts_fit(list@) && value.counter < u64::MAX ==> counts_fit(r@),
{
    let mut kept: Vec<(String, DynamicValue)> = Vec::new();
    let ghost all = dynamic_of(list@);
    assert(all.take(0) =~= Dynamic::empty());
    assert(dynamic_of(kept@) =~= without_name(all.take(0), name@));
    for entry in it: list
        invariant
            it.seq() == list@,
            all == dynamic_of(list@),
            dynamic_of(kept@) == without_name(all.take(it.index() as int), name@),
            counts_fit(list@) ==> counts_fit(kept@),
    {
        let ghost i = it.index() as int;
        let ghost before = kept@;
        assert(all.take(i + 1).drop_last() =~= all.take(i));
        assert(all.take(i + 1).last() == (entry.0@, entry.1@));
        assert(entry == list@[i]);
        if !same(entry.0.as_str(), name.as_str()) {
            kept.push(entry);
            assert(dynamic_of(kept@) =~= dynamic_of(before).push((entry.0@, entry.1@)));
        }
    }
    assert(all.take(all.len() as int) =~= all);
    let ghost before = kept@;
    let ghost named = (name@, value@);
    kept.push((name, value));
    assert(dynamic_of(kept@) =~= dynamic_of(before).push(named));
    proof {
        lemma_without_name(all, named.0);
        let r = dynamic_of(kept@);
        let rest = without_name(all, named.0);
        if has_distinct_values(all) {
            assert forall|i: int, j: int| 0 <= i < j < r.len() implies (#[trigger] r[i]).0 != (
            #[trigger] r[j]).0 by {
                assert(r[i] == rest[i]);
                if j < rest.len() {
                    assert(r[j] == rest[j]);
                }
            }
        }
    }
    kept
}

/// The values that dynamic values make for a request.
pub open spec fn values_of(list: Dynamic, now_millis: int) -> Seq<(Seq<char>, Seq<char>)> {
    list.map_values(|e: (Seq<char>, DynamicView)| (e.0, next_value(e.1, now_millis)))
}

/// What is left of dynamic values after a request.
pub open spec fn after_values(list: Dynamic) -> Dynamic {
    list.map_values(|e: (Seq<char>, DynamicView)| (e.0, after_value(e.1)))
}

/// Makes the values for a request.
pub fn make_values(list: Vec<(String, DynamicValue)>, now_millis: i64) -> (r: (
    Vec<(String, DynamicValue)>,
    Vec<(String, String)>,
))
    requires
        counts_fit(list@),
    ensures
        dynamic_of(r.0@) == after_values(dynamic_of(list@)),
        fields(r.1@) == values_of(dynamic_of(list@), now_millis as int),
        has_distinct_values(dynamic_of(list@)) ==> has_distinct_values(dynamic_of(r.0@))
            && has_distinct_names(fields(r.1@)),
{
    let mut left: Vec<(String, DynamicValue)> = Vec::new();
    let mut made: Vec<(String, String)> = Vec::new();
    let ghost all = dynamic_of(list@);
    assert(dynamic_of(left@) =~= after_values(all.take(0)));
    assert(fields(made@) =~= values_of(all.take(0), now_millis as int));
    for entry in it: list
        invariant
            it.seq() == list@,
            counts_fit(list@),
            all == dynamic_of(list@),
            dynamic_of(left@) == after_values(all.take(it.index() as int)),
            fields(made@) == values_of(all.take(it.index() as int), now_millis as int),
    {
        let ghost i = it.index() as int;
        let ghost left0 = left@;
        let ghost made0 = made@;
        let ghost e = (entry.0@, entry.1@);
        assert(entry == list@[i]);
        assert(all.take(i + 1) =~= all.take(i).push(e));
        let name = entry.0.clone();
        let (next, text) = next_dynamic_value(entry.1, now_millis);
        left.push((entry.0, next));
        made.push((name, text));
        assert(dynamic_of(left@) =~= dynamic_of(left0).push((e.0, after_value(e.1))));
        assert(fields(made@) =~= fields(made0).push((e.0, next_value(e.1, now_millis as int))));
        assert(after_values(all.take(i + 1)) =~= after_values(all.take(i)).push(
            (e.0, after_value(e.1)),
        ));
        assert(values_of(all.take(i + 1), now_millis as int) =~= values_of(
            all.take(i),
            now_millis as int,
        ).push((e.0, next_value(e.1, now_millis as int))));
    }
    assert(all.take(all.len() as int) =~= all);
    proof {
        let l = dynamic_of(left@);
        let m = fields(made@);
        assert(forall|i: int| 0 <= i < all.len() ==> (#[trigger] l[i]).0 == all[i].0);
        assert(forall|i: int| 0 <= i < all.len() ==> (#[trigger] m[i]).0 == all[i].0);
    }
    (left, made)
}

/// Fields with others added that they do not name yet.
pub open spec fn with_missing(
    f: Seq<(Seq<char>, Seq<char>)>,
    more: Seq<(Seq<char>, Seq<char>)>,
) -> Seq<(Seq<char>, Seq<char>)>
    decreases more.len(),
{
    if more.len() == 0 {
        f
    } else {
        let rest = with_missing(f, more.drop_last());
        if field_of(rest, more.last().0) is Some {
            rest
        } else {
            rest.push(more.last())
        }
    }
}

/// Adds the fields whose names a list does not have yet. No name is added twice.
pub fn add_missing(list: Vec<(String, String)>, more: &Vec<(String, String)>) -> (r: Vec<(String, String)>)
    ensures
        fields(r@) == with_missing(fields(list@), fields(more@)),
        has_distinct_names(fields(list@)) ==> has_distinct_names(fields(r@)),
{
    proof {
        if has_distinct_names(fields(list@)) {
            lemma_missing_distinct(fields(list@), fields(more@));
        }
    }
    let ghost first = fields(list@);
    let mut list = list;
    let mut i: usize = 0;
    let ghost all = fields(more@);
    assert(all.take(0) =~= Seq::<(Seq<char>, Seq<char>)>::empty());
    while i < more.len()
        invariant
            i <= more@.len(),
            all == fields(more@),
            fields(list@) == with_missing(first, all.take(i as int)),
        decreases more.len() - i,
    {
        let ghost before = list@;
        assert(all.take(i + 1).drop_last() =~= all.take(i as int));
        assert(all.take(i + 1).last() == (more@[i as int].0@, more@[i as int].1@));
        if get_field(&list, more[i].0.as_str()).is_none() {
            list.push((more[i].0.clone(), more[i].1.clone()));
            assert(fields(list@) =~= fields(before).push(all[i as int]));
        }
        i += 1;
    }
    assert(all.take(all.len() as int) =~= all);
    list
}

proof fn lemma_missing_distinct(f: Seq<(Seq<char>, Seq<char>)>, more: Seq<(Seq<char>, Seq<char>)>)
    requires
        has_distinct_names(f),
    ensures
        has_distinct_names(with_missing(f, more)),
    decreases more.len(),
{
    if more.len() > 0 {
        lemma_missing_distinct(f, more.drop_last());
        let rest = with_missing(f, more.drop_last());
        let last = more.last();
        if field_of(rest, last.0) is None {
            let r = rest.push(last);
            assert forall|i: int, j: int| 0 <= i < j < r.len() implies (#[trigger] r[i]).0 != (
            #[trigger] r[j]).0 by {
                assert(r[i] == rest[i]);
                if j < rest.len() {
                    assert(r[j] == rest[j]);
                } else if rest[i].0 == last.0 {
                    lemma_named_field(rest, i);
                }
            }
        }
    }
}

/// Adding fields that are missing changes no field that is there.
pub proof fn lemma_missing_keeps(f: Seq<(Seq<char>, Seq<char>)>, more: Seq<(Seq<char>, Seq<char>)>, name: Seq<char>)
    requires
        field_of(f, name) is Some,
    ensures
        field_of(with_missing(f, more), name) == field_of(f, name),
    decreases more.len(),
{
    if more.len() > 0 {
        lemma_missing_keeps(f, more.drop_last(), name);
        let rest = with_missing(f, more.drop_last());
        if field_of(rest, more.last().0) is None {
            assert(rest.push(more.last()).drop_last() =~= rest);
            assert(more.last().0 != name);
            lemma_push_field(rest, more.last(), name);
        }
    }
}

proof fn lemma_push_field(f: Seq<(Seq<char>, Seq<char>)>, entry: (Seq<char>, Seq<char>), name: Seq<char>)
    requires
        entry.0 != name,
    ensures
        field_of(f.push(entry), name) == field_of(f, name),
    decreases f.len(),
{
    if f.len() > 0 {
        assert(f.push(entry).skip(1) =~= f.skip(1).push(entry));
        lemma_push_field(f.skip(1), entry, name);
    } else {
        assert(f.push(entry).skip(1) =~= f);
    }
}

} // verus!
