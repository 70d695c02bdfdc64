use vstd::prelude::*;
use vstd::string::*;

verus! {

/// One form field: a key and its value.
pub type Field = (Seq<char>, Seq<char>);

/// The characters of each key and value of a form.
pub open spec fn form_view(form: Seq<(String, String)>) -> Seq<Field> {
    form.map_values(|e: (String, String)| (e.0@, e.1@))
}

/// The characters of an optional string.
pub open spec fn opt_chars(s: Option<String>) -> Option<Seq<char>> {
    match s {
        Some(t) => Some(t@),
        None => None,
    }
}

/// The characters of each string of a list.
pub open spec fn strings_view(v: Seq<String>) -> Seq<Seq<char>> {
    v.map_values(|s: String| s@)
}

/// A single field when `value` is present, nothing otherwise.
pub open spec fn opt_field(key: Seq<char>, value: Option<Seq<char>>) -> Seq<Field> {
    match value {
        Some(v) => seq![(key, v)],
        None => Seq::empty(),
    }
}

/// No two fields of the form share a key.
pub open spec fn keys_distinct(form: Seq<Field>) -> bool {
    forall|i: int, j: int| 0 <= i < j < form.len() ==> form[i].0 != form[j].0
}

/// The items, with `sep` between each two neighbours.
pub open spec fn join(items: Seq<Seq<char>>, sep: Seq<char>) -> Seq<char>
    decreases items.len(),
{
    if items.len() == 0 {
        Seq::empty()
    } else if items.len() == 1 {
        items[0]
    } else {
        join(items.drop_last(), sep) + sep + items.last()
    }
}

/// Appends the field `(key, value)` to the form.
pub fn push_field(form: &mut Vec<(String, String)>, key: &str, value: String)
    ensures
        form_view(final(form)@) == form_view(old(form)@).push((key@, value@)),
{
    let ghost before = form@;
    form.push((String::from_str(key), value));
    assert(form_view(form@) =~= form_view(before).push((key@, value@)));
}

/// Appends the field `(key, value)` to the form when `value` is present.
pub fn push_opt_field(form: &mut Vec<(String, String)>, key: &str, value: Option<String>)
    ensures
        form_view(final(form)@) == form_view(old(form)@) + opt_field(key@, opt_chars(value)),
{
    match value {
        Some(v) => {
            let ghost before = form_view(form@);
            push_field(form, key, v);
            assert(form_view(form@) =~= before + seq![(key@, v@)]);
        },
        None => {
            assert(form_view(form@) =~= form_view(form@) + Seq::<Field>::empty());
        },
    }
}

/// The strings of `items` joined with `sep` between them.
pub fn join_with(items: &Vec<String>, sep: &str) -> (r: String)
    ensures
        r@ == join(strings_view(items@), sep@),
{
    let ghost all = strings_view(items@);
    if items.len() == 0 {
        return String::new();
    }
    let mut out = items[0].clone();
    let mut i: usize = 1;
    assert(all.take(1) =~= seq![all[0]]);
    while i < items.len()
        invariant
            all == strings_view(items@),
            1 <= i <= items.len(),
            out@ == join(all.take(i as int), sep@),
        decreases items.len() - i,
    {
        out.append(sep);
        out.append(items[i].as_str());
        assert(all.take(i + 1).drop_last() =~= all.take(i as int));
        i = i + 1;
    }
    assert(all.take(i as int) =~= all);
    out
}

/// The fields among the first `n` keys whose value is present, in key order; `values[i]` is
/// the value sent under `keys[i]`.
pub open spec fn fields_upto(keys: Seq<Seq<char>>, values: Seq<Option<Seq<char>>>, n: int) -> Seq<
    Field,
>
    decreases n,
{
    if n <= 0 {
        Seq::empty()
    } else {
        fields_upto(keys, values, n - 1) + opt_field(keys[n - 1], values[n - 1])
    }
}

/// With distinct keys, the present fields have distinct keys, and each of them is a key with
/// a present value.
pub proof fn lemma_fields_upto(keys: Seq<Seq<char>>, values: Seq<Option<Seq<char>>>, n: int)
    requires
        keys.no_duplicates(),
        0 <= n <= keys.len(),
        keys.len() == values.len(),
    ensures
        keys_distinct(fields_upto(keys, values, n)),
        forall|j: int|
            0 <= j < fields_upto(keys, values, n).len() ==> exists|i: int|
                0 <= i < n && #[trigger] fields_upto(keys, values, n)[j] == (
                    keys[i],
                    values[i]->0,
                ) && values[i] is Some,
    decreases n,
{
    if n > 0 {
        lemma_fields_upto(keys, values, n - 1);
        let prev = fields_upto(keys, values, n - 1);
        let cur = fields_upto(keys, values, n);
        assert forall|j: int| 0 <= j < cur.len() implies exists|i: int|
            0 <= i < n && #[trigger] cur[j] == (keys[i], values[i]->0) && values[i] is Some by {
            if j < prev.len() {
                assert(cur[j] == prev[j]);
            } else {
                assert(cur[j] == (keys[n - 1], values[n - 1]->0));
            }
        }
        assert forall|a: int, b: int| 0 <= a < b < cur.len() implies cur[a].0 != cur[b].0 by {
            if b < prev.len() {
                assert(cur[a] == prev[a] && cur[b] == prev[b]);
            } else {
                assert(cur[a] == prev[a]);
                let i = choose|i: int|
                    0 <= i < n - 1 && #[trigger] prev[a] == (keys[i], values[i]->0)
                        && values[i] is Some;
                assert(cur[b].0 == keys[n - 1]);
                assert(keys[i] != keys[n - 1]);
            }
        }
    }
}

} // verus!
