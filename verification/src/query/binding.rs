//! Positional binding: what it means to put a list of values, one after
//! another, in the places of a text's placeholders, and the facts from which
//! every statement's binding is derived.

use vstd::prelude::*;
use vstd::string::*;

use crate::query::executor::Scalar;
use crate::query::model::Inscribe;
use crate::text::{decimal, join};

verus! {

/// The character that marks the place of a bound value.
pub open spec fn placeholder_char() -> char {
    '?'
}

/// How many placeholders `text` holds.
pub open spec fn placeholder_count(text: Seq<char>) -> nat
    decreases text.len(),
{
    if text.len() == 0 {
        0
    } else if text.first() == placeholder_char() {
        1 + placeholder_count(text.drop_first())
    } else {
        placeholder_count(text.drop_first())
    }
}

/// `text` with its placeholders replaced, left to right, by what `w` writes
/// for `values[0]`, `values[1]`, ...; a placeholder for which no value is
/// left stays as it is.
pub open spec fn bind(text: Seq<char>, values: Seq<Scalar>, w: Inscribe) -> Seq<char>
    decreases text.len(),
{
    if text.len() == 0 {
        Seq::empty()
    } else if text.first() == placeholder_char() && values.len() > 0 {
        w(values.first()) + bind(text.drop_first(), values.drop_first(), w)
    } else {
        seq![text.first()] + bind(text.drop_first(), values, w)
    }
}

/// `text` holds no placeholder.
pub open spec fn placeholder_free(text: Seq<char>) -> bool {
    forall|i: int| 0 <= i < text.len() ==> text[i] != placeholder_char()
}

/// None of `texts` holds a placeholder.
pub open spec fn all_placeholder_free(texts: Seq<Seq<char>>) -> bool {
    forall|i: int| 0 <= i < texts.len() ==> placeholder_free(#[trigger] texts[i])
}

/// `text` has exactly one placeholder per value, and binding the values
/// gives `target`.
pub open spec fn binds_to(
    text: Seq<char>,
    values: Seq<Scalar>,
    w: Inscribe,
    target: Seq<char>,
) -> bool {
    placeholder_count(text) == values.len() && bind(text, values, w) == target
}

/// Placeholders are counted part by part.
pub proof fn lemma_count_concat(a: Seq<char>, b: Seq<char>)
    ensures
        placeholder_count(a + b) == placeholder_count(a) + placeholder_count(b),
    decreases a.len(),
{
    if a.len() == 0 {
        assert(a + b =~= b);
    } else {
        assert((a + b).drop_first() =~= a.drop_first() + b);
        lemma_count_concat(a.drop_first(), b);
    }
}

/// Binding goes part by part, where the first part takes as many values as
/// it has placeholders.
pub proof fn lemma_bind_concat(
    a: Seq<char>,
    pa: Seq<Scalar>,
    b: Seq<char>,
    pb: Seq<Scalar>,
    w: Inscribe,
)
    requires
        placeholder_count(a) == pa.len(),
    ensures
        bind(a + b, pa + pb, w) == bind(a, pa, w) + bind(b, pb, w),
    decreases a.len(),
{
    if a.len() == 0 {
        assert(a + b =~= b);
        assert(pa + pb =~= pb);
        assert(bind(a, pa, w) + bind(b, pb, w) =~= bind(b, pb, w));
    } else {
        assert((a + b).drop_first() =~= a.drop_first() + b);
        assert((a + b).first() == a.first());
        if a.first() == placeholder_char() {
            assert(pa.len() > 0);
            assert((pa + pb).drop_first() =~= pa.drop_first() + pb);
            assert((pa + pb).first() == pa.first());
            lemma_bind_concat(a.drop_first(), pa.drop_first(), b, pb, w);
            assert(bind(a + b, pa + pb, w) =~= bind(a, pa, w) + bind(b, pb, w));
        } else {
            lemma_bind_concat(a.drop_first(), pa, b, pb, w);
            assert(bind(a + b, pa + pb, w) =~= bind(a, pa, w) + bind(b, pb, w));
        }
    }
}

/// A text without placeholders takes no value and is left as it is.
pub proof fn lemma_free_binds(text: Seq<char>, w: Inscribe)
    requires
        placeholder_free(text),
    ensures
        binds_to(text, Seq::empty(), w, text),
    decreases text.len(),
{
    if text.len() > 0 {
        assert(text[0] != placeholder_char());
        let rest = text.drop_first();
        assert forall|i: int| 0 <= i < rest.len() implies rest[i] != placeholder_char() by {
            assert(rest[i] == text[i + 1]);
        }
        lemma_free_binds(rest, w);
        assert(bind(text, Seq::empty(), w) =~= text);
    } else {
        assert(bind(text, Seq::empty(), w) =~= text);
    }
}

/// A lone placeholder takes one value and becomes what `w` writes for it.
pub proof fn lemma_placeholder_binds(v: Scalar, w: Inscribe)
    ensures
        binds_to("?"@, seq![v], w, w(v)),
{
    reveal_strlit("?");
    let text = "?"@;
    assert(text.len() == 1);
    assert(text.first() == placeholder_char());
    assert(text.drop_first().len() == 0);
    assert(placeholder_count(text.drop_first()) == 0);
    assert(placeholder_count(text) == 1);
    assert(bind(text.drop_first(), seq![v].drop_first(), w) =~= Seq::<char>::empty());
    assert(bind(text, seq![v], w) =~= w(v));
}

/// Two bound parts, one after the other, are bound.
pub proof fn lemma_binds_concat(
    a: Seq<char>,
    pa: Seq<Scalar>,
    ta: Seq<char>,
    b: Seq<char>,
    pb: Seq<Scalar>,
    tb: Seq<char>,
    w: Inscribe,
)
    requires
        binds_to(a, pa, w, ta),
        binds_to(b, pb, w, tb),
    ensures
        binds_to(a + b, pa + pb, w, ta + tb),
{
    lemma_count_concat(a, b);
    lemma_bind_concat(a, pa, b, pb, w);
}

/// A bound part with plain text before it is bound.
pub proof fn lemma_binds_after(
    prefix: Seq<char>,
    b: Seq<char>,
    pb: Seq<Scalar>,
    tb: Seq<char>,
    w: Inscribe,
)
    requires
        placeholder_free(prefix),
        binds_to(b, pb, w, tb),
    ensures
        binds_to(prefix + b, pb, w, prefix + tb),
{
    lemma_free_binds(prefix, w);
    lemma_binds_concat(prefix, Seq::empty(), prefix, b, pb, tb, w);
    assert(Seq::<Scalar>::empty() + pb =~= pb);
}

/// A bound part with plain text behind it is bound.
pub proof fn lemma_binds_before(
    a: Seq<char>,
    pa: Seq<Scalar>,
    ta: Seq<char>,
    suffix: Seq<char>,
    w: Inscribe,
)
    requires
        binds_to(a, pa, w, ta),
        placeholder_free(suffix),
    ensures
        binds_to(a + suffix, pa, w, ta + suffix),
{
    lemma_free_binds(suffix, w);
    lemma_binds_concat(a, pa, ta, suffix, Seq::empty(), suffix, w);
    assert(pa + Seq::<Scalar>::empty() =~= pa);
}

/// Bound parts joined by a plain separator are bound, to the parts' values
/// one list after the other.
pub proof fn lemma_join_binds(
    parts: Seq<Seq<char>>,
    values: Seq<Seq<Scalar>>,
    targets: Seq<Seq<char>>,
    sep: Seq<char>,
    w: Inscribe,
)
    requires
        parts.len() == values.len(),
        parts.len() == targets.len(),
        placeholder_free(sep),
        forall|i: int| 0 <= i < parts.len() ==> binds_to(parts[i], values[i], w, targets[i]),
    ensures
        binds_to(join(parts, sep), values.flatten(), w, join(targets, sep)),
    decreases parts.len(),
{
    if parts.len() == 0 {
        assert(values.flatten() =~= Seq::<Scalar>::empty());
        lemma_free_binds(Seq::empty(), w);
    } else if parts.len() == 1 {
        values.lemma_flatten_one_element();
    } else {
        lemma_join_binds(parts.drop_last(), values.drop_last(), targets.drop_last(), sep, w);
        assert(values =~= values.drop_last().push(values.last()));
        values.drop_last().lemma_flatten_push(values.last());
        lemma_binds_before(
            join(parts.drop_last(), sep),
            values.drop_last().flatten(),
            join(targets.drop_last(), sep),
            sep,
            w,
        );
        lemma_binds_concat(
            join(parts.drop_last(), sep) + sep,
            values.drop_last().flatten(),
            join(targets.drop_last(), sep) + sep,
            parts.last(),
            values.last(),
            targets.last(),
            w,
        );
    }
}

/// Plain parts, one after the other, are plain.
pub proof fn lemma_free_concat(a: Seq<char>, b: Seq<char>)
    requires
        placeholder_free(a),
        placeholder_free(b),
    ensures
        placeholder_free(a + b),
{
    assert forall|i: int| 0 <= i < (a + b).len() implies (a + b)[i] != placeholder_char() by {
        if i < a.len() {
            assert((a + b)[i] == a[i]);
        } else {
            assert((a + b)[i] == b[i - a.len()]);
        }
    }
}

/// Plain parts joined by a plain separator are plain.
pub proof fn lemma_free_join(parts: Seq<Seq<char>>, sep: Seq<char>)
    requires
        all_placeholder_free(parts),
        placeholder_free(sep),
    ensures
        placeholder_free(join(parts, sep)),
    decreases parts.len(),
{
    if parts.len() == 0 {
    } else if parts.len() == 1 {
        assert(placeholder_free(parts[0]));
    } else {
        let head = parts.drop_last();
        assert forall|i: int| 0 <= i < head.len() implies placeholder_free(
            #[trigger] head[i],
        ) by {
            assert(head[i] == parts[i]);
        }
        lemma_free_join(head, sep);
        assert(placeholder_free(parts[parts.len() - 1]));
        lemma_free_concat(join(head, sep), sep);
        lemma_free_concat(join(head, sep) + sep, parts.last());
    }
}

/// A decimal numeral is plain.
pub proof fn lemma_free_decimal(n: nat)
    ensures
        placeholder_free(decimal(n)),
    decreases n,
{
    if n >= 10 {
        lemma_free_decimal(n / 10);
    }
}

} // verus!
