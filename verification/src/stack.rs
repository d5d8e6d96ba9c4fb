//! What holds of the stack of lower layers: it holds the layers of the
//! listing and nothing else, and it is in ascending order as text.

use crate::fs::{
    is_layer, is_layer_name, layer_number, layer_path, layers_below, layers_numbered,
    lower_layers, DirEntryModel,
};
use crate::text::{digit_char, digit_value, is_digit};
use vstd::multiset::Multiset;
use vstd::prelude::*;

verus! {

/// Whether `a` comes before `b`, or is `b`, in the order of texts: the
/// first character in which the two differ decides, and a text comes
/// before every longer text that starts with it.
pub open spec fn text_le(a: Seq<char>, b: Seq<char>) -> bool
    decreases a.len(),
{
    if a.len() == 0 {
        true
    } else if b.len() == 0 {
        false
    } else if a[0] != b[0] {
        a[0] < b[0]
    } else {
        text_le(a.drop_first(), b.drop_first())
    }
}

/// The name of the layer with number `n`.
pub open spec fn layer_name(n: int) -> Seq<char> {
    "layer"@ + seq![digit_char(n / 10), digit_char(n % 10)]
}

/// The paths of the layers among `entries`, in the order of the listing.
pub open spec fn listed_layers(root: Seq<char>, entries: Seq<DirEntryModel>) -> Seq<Seq<char>>
    decreases entries.len(),
{
    if entries.len() == 0 {
        Seq::empty()
    } else if is_layer(entries.last()) {
        listed_layers(root, entries.drop_last()).push(layer_path(root, entries.last().name))
    } else {
        listed_layers(root, entries.drop_last())
    }
}

/// A digit is the character of its value, and the characters of the
/// digits are in the order of their values.
proof fn lemma_digits(c: char, d: char)
    requires
        is_digit(c),
        is_digit(d),
    ensures
        0 <= digit_value(c) <= 9,
        digit_char(digit_value(c)) == c,
        c < d <==> digit_value(c) < digit_value(d),
{
}

/// A layer name is the name of its number, and its number has two digits.
proof fn lemma_name_of_number(name: Seq<char>)
    requires
        is_layer_name(name),
    ensures
        0 <= layer_number(name) < 100,
        name == layer_name(layer_number(name)),
{
    lemma_digits(name[5], name[6]);
    lemma_digits(name[6], name[5]);
}

/// Texts that start alike are ordered by what follows.
proof fn lemma_same_start(start: Seq<char>, a: Seq<char>, b: Seq<char>)
    ensures
        text_le(start + a, start + b) == text_le(a, b),
    decreases start.len(),
{
    if start.len() > 0 {
        assert((start + a).drop_first() =~= start.drop_first() + a);
        assert((start + b).drop_first() =~= start.drop_first() + b);
        lemma_same_start(start.drop_first(), a, b);
    }
}

/// The paths of two layers are ordered as the numbers of the layers are.
proof fn lemma_paths_in_order(root: Seq<char>, a: int, b: int)
    requires
        0 <= a <= b < 100,
    ensures
        text_le(layer_path(root, layer_name(a)), layer_path(root, layer_name(b))),
{
    let start = root + seq!['/'] + "layer"@;
    let x = seq![digit_char(a / 10), digit_char(a % 10)];
    let y = seq![digit_char(b / 10), digit_char(b % 10)];
    assert(layer_path(root, layer_name(a)) =~= start + x);
    assert(layer_path(root, layer_name(b)) =~= start + y);
    lemma_same_start(start, x, y);
    reveal_with_fuel(text_le, 4);
}

/// Whether every item of `paths` is `path`.
spec fn each_is(paths: Seq<Seq<char>>, path: Seq<char>) -> bool {
    forall|i: int| 0 <= i < paths.len() ==> #[trigger] paths[i] == path
}

/// Every path among the layers numbered `n` is the path of the layer
/// with that number, and only a number of two digits has layers.
proof fn lemma_numbered(root: Seq<char>, entries: Seq<DirEntryModel>, n: int)
    ensures
        each_is(layers_numbered(root, entries, n), layer_path(root, layer_name(n))),
        layers_numbered(root, entries, n).len() > 0 ==> 0 <= n < 100,
    decreases entries.len(),
{
    if entries.len() > 0 {
        lemma_numbered(root, entries.drop_last(), n);
        let now = layers_numbered(root, entries, n);
        if is_layer(entries.last()) {
            lemma_name_of_number(entries.last().name);
        }
        assert forall|i: int| 0 <= i < now.len() implies #[trigger] now[i] == layer_path(
            root,
            layer_name(n),
        ) by {
        }
    }
}

/// The number of the layer whose path stands at each place of the layers
/// below `n`: the numbers are below `n` and never fall from one place to
/// the next.
spec fn numbers_below(root: Seq<char>, entries: Seq<DirEntryModel>, n: nat) -> Seq<int>
    decreases n,
{
    if n == 0 {
        Seq::empty()
    } else {
        numbers_below(root, entries, (n - 1) as nat) + Seq::new(
            layers_numbered(root, entries, n - 1).len(),
            |i: int| n - 1,
        )
    }
}

/// There is one number for each path among the layers below `n`; each
/// number is below `n`; the numbers never fall; and each path is the
/// path of the layer with its number.
proof fn lemma_numbers_below(root: Seq<char>, entries: Seq<DirEntryModel>, n: nat)
    requires
        n <= 100,
    ensures
        numbers_below(root, entries, n).len() == layers_below(root, entries, n).len(),
        forall|i: int|
            0 <= i < numbers_below(root, entries, n).len() ==> 0 <= #[trigger] numbers_below(
                root,
                entries,
                n,
            )[i] < n,
        forall|i: int, j: int|
            0 <= i <= j < numbers_below(root, entries, n).len() ==> #[trigger] numbers_below(
                root,
                entries,
                n,
            )[i] <= #[trigger] numbers_below(root, entries, n)[j],
        forall|i: int|
            0 <= i < layers_below(root, entries, n).len() ==> #[trigger] layers_below(
                root,
                entries,
                n,
            )[i] == layer_path(root, layer_name(numbers_below(root, entries, n)[i])),
    decreases n,
{
    if n > 0 {
        lemma_numbers_below(root, entries, (n - 1) as nat);
        lemma_numbered(root, entries, n - 1);
        let before = numbers_below(root, entries, (n - 1) as nat);
        let now = numbers_below(root, entries, n);
        let paths = layers_below(root, entries, n);
        assert forall|i: int| 0 <= i < now.len() implies 0 <= #[trigger] now[i] < n by {
        }
        assert forall|i: int, j: int| 0 <= i <= j < now.len() implies #[trigger] now[i]
            <= #[trigger] now[j] by {
        }
        assert forall|i: int| 0 <= i < paths.len() implies #[trigger] paths[i] == layer_path(
            root,
            layer_name(now[i]),
        ) by {
        }
    }
}

/// The stack of lower layers is in ascending order as text: of any two
/// paths in it, the one that stands first is the same as the other or
/// comes before it.
pub proof fn lemma_layers_sorted(root: Seq<char>, entries: Seq<DirEntryModel>)
    ensures
        forall|i: int, j: int|
            0 <= i <= j < lower_layers(root, entries).len() ==> text_le(
                #[trigger] lower_layers(root, entries)[i],
                #[trigger] lower_layers(root, entries)[j],
            ),
{
    lemma_numbers_below(root, entries, 100);
    let paths = lower_layers(root, entries);
    let numbers = numbers_below(root, entries, 100);
    assert forall|i: int, j: int| 0 <= i <= j < paths.len() implies text_le(
        #[trigger] paths[i],
        #[trigger] paths[j],
    ) by {
        lemma_paths_in_order(root, numbers[i], numbers[j]);
    }
}

/// The paths of the layers among `entries` whose number is below `n`, in
/// the order of the listing.
spec fn listed_below(root: Seq<char>, entries: Seq<DirEntryModel>, n: int) -> Seq<Seq<char>>
    decreases entries.len(),
{
    if entries.len() == 0 {
        Seq::empty()
    } else if is_layer(entries.last()) && layer_number(entries.last().name) < n {
        listed_below(root, entries.drop_last(), n).push(layer_path(root, entries.last().name))
    } else {
        listed_below(root, entries.drop_last(), n)
    }
}

/// The listed layers with a number below `n + 1` are those below `n`
/// and those numbered `n`.
proof fn lemma_listed_step(root: Seq<char>, entries: Seq<DirEntryModel>, n: int)
    ensures
        listed_below(root, entries, n + 1).to_multiset() == listed_below(
            root,
            entries,
            n,
        ).to_multiset().add(layers_numbered(root, entries, n).to_multiset()),
    decreases entries.len(),
{
    broadcast use vstd::multiset::group_multiset_axioms;
    broadcast use vstd::seq_lib::group_to_multiset_ensures;

    if entries.len() > 0 {
        lemma_listed_step(root, entries.drop_last(), n);
    }
}

/// No layer has a number below zero.
proof fn lemma_listed_none(root: Seq<char>, entries: Seq<DirEntryModel>)
    ensures
        listed_below(root, entries, 0) == Seq::<Seq<char>>::empty(),
    decreases entries.len(),
{
    if entries.len() > 0 {
        lemma_listed_none(root, entries.drop_last());
        if is_layer(entries.last()) {
            lemma_name_of_number(entries.last().name);
        }
    }
}

/// Every layer has a number below one hundred.
proof fn lemma_listed_all(root: Seq<char>, entries: Seq<DirEntryModel>)
    ensures
        listed_below(root, entries, 100) == listed_layers(root, entries),
    decreases entries.len(),
{
    if entries.len() > 0 {
        lemma_listed_all(root, entries.drop_last());
        if is_layer(entries.last()) {
            lemma_name_of_number(entries.last().name);
        }
    }
}

/// The layers below `n`, in ascending order, are the listed layers
/// below `n`, in another order.
proof fn lemma_below_is_listed(root: Seq<char>, entries: Seq<DirEntryModel>, n: nat)
    ensures
        layers_below(root, entries, n).to_multiset() == listed_below(
            root,
            entries,
            n as int,
        ).to_multiset(),
    decreases n,
{
    broadcast use vstd::multiset::group_multiset_axioms;

    if n == 0 {
        lemma_listed_none(root, entries);
    } else {
        lemma_below_is_listed(root, entries, (n - 1) as nat);
        lemma_listed_step(root, entries, n - 1);
        vstd::seq_lib::lemma_multiset_commutative(
            layers_below(root, entries, (n - 1) as nat),
            layers_numbered(root, entries, n - 1),
        );
    }
}

/// The stack of lower layers holds the paths of the layers of the
/// listing, each as often as the listing names it, and nothing else.
pub proof fn lemma_layers_complete(root: Seq<char>, entries: Seq<DirEntryModel>)
    ensures
        lower_layers(root, entries).to_multiset() == listed_layers(root, entries).to_multiset(),
        lower_layers(root, entries).len() == listed_layers(root, entries).len(),
{
    lemma_below_is_listed(root, entries, 100);
    lemma_listed_all(root, entries);
    vstd::seq_lib::to_multiset_len(lower_layers(root, entries));
    vstd::seq_lib::to_multiset_len(listed_layers(root, entries));
}

} // verus!
