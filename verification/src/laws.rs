//! The general properties of the pass, stated and proved over the model.

use vstd::prelude::*;
use crate::ast::{ExprV, TemplateV, PropV};
use crate::model::{
    braced, choice_fragments, decimal, fragment, placeholder_of, prop_of, rule_a, rule_b,
    template_wf, tpl_message, tpl_message_prefix, tpl_values, transform, transform_prop,
    transform_props, transform_seq, transform_template,
};

verus! {

// ---------------------------------------------------------------------------
// Placeholder-count law
// ---------------------------------------------------------------------------

/// The placeholder markers of a template: one `{...}` marker per hole, in
/// hole order.
pub open spec fn markers_of(t: TemplateV) -> Seq<Seq<char>> {
    Seq::new(t.holes.len(), |i: int| braced(placeholder_of(t.holes[i], i as nat)))
}

/// Text pieces interleaved with separators: each piece followed by the
/// separator at its position, while one exists.
pub open spec fn interleave_prefix(pieces: Seq<Seq<char>>, seps: Seq<Seq<char>>, i: nat) -> Seq<
    char,
>
    decreases i,
{
    if i == 0 {
        Seq::empty()
    } else {
        let j = (i - 1) as nat;
        interleave_prefix(pieces, seps, j) + pieces[j as int] + if j < seps.len() {
            seps[j as int]
        } else {
            Seq::empty()
        }
    }
}

pub open spec fn interleave(pieces: Seq<Seq<char>>, seps: Seq<Seq<char>>) -> Seq<char> {
    interleave_prefix(pieces, seps, pieces.len())
}

proof fn lemma_interleave_markers(t: TemplateV, i: nat)
    ensures
        tpl_message_prefix(t, i) == interleave_prefix(t.chunks, markers_of(t), i),
    decreases i,
{
    if i > 0 {
        lemma_interleave_markers(t, (i - 1) as nat);
    }
}

/// Placeholder-count law: for a well-formed template with N holes, the built
/// message is exactly the N+1 chunks interleaved, in chunk order, with the N
/// placeholder markers, and the returned values list has exactly N entries.
pub proof fn lemma_placeholder_count(t: TemplateV)
    requires
        template_wf(t),
    ensures
        tpl_values(t).len() == t.holes.len(),
        markers_of(t).len() == t.holes.len(),
        tpl_message(t) == interleave(t.chunks, markers_of(t)),
{
    lemma_interleave_markers(t, t.chunks.len());
}

// ---------------------------------------------------------------------------
// Named-vs-positional law
// ---------------------------------------------------------------------------

/// Named-vs-positional law: a hole that is a bare identifier keeps the
/// identifier as its placeholder and contributes a shorthand entry reusing
/// it; every other hole gets its own zero-based position, stringified, as the
/// placeholder, and contributes an entry pairing that placeholder with the
/// untouched hole expression.
pub proof fn lemma_named_vs_positional(t: TemplateV)
    ensures
        forall|i: int|
            0 <= i < t.holes.len() ==> #[trigger] tpl_values(t)[i] == (match t.holes[i] {
                ExprV::Ident(name) => PropV::Shorthand(name),
                _ => PropV::KeyValue(decimal(i as nat), t.holes[i]),
            }),
        forall|i: int|
            0 <= i < t.holes.len() ==> #[trigger] markers_of(t)[i] == braced(
                match t.holes[i] {
                    ExprV::Ident(name) => name,
                    _ => decimal(i as nat),
                },
            ),
{
    assert forall|i: int| 0 <= i < t.holes.len() implies #[trigger] tpl_values(t)[i] == (
    match t.holes[i] {
        ExprV::Ident(name) => PropV::Shorthand(name),
        _ => PropV::KeyValue(decimal(i as nat), t.holes[i]),
    }) by {
        assert(tpl_values(t)[i] == prop_of(t.holes[i], i as nat));
    }
}

// ---------------------------------------------------------------------------
// Case-order law
// ---------------------------------------------------------------------------

/// The case a choices-object property yields, if any: its name paired with
/// its message text.
pub open spec fn case_of(p: PropV) -> Option<(Seq<char>, Seq<char>)> {
    match p {
        PropV::KeyValue(name, value) => match value {
            ExprV::StrLit(s) => Option::Some((name, s)),
            ExprV::Tpl(t) => Option::Some((name, tpl_message(t))),
            _ => Option::None,
        },
        _ => Option::None,
    }
}

/// The cases kept from a choices object, in source property order.
pub open spec fn kept_cases(props: Seq<PropV>) -> Seq<(Seq<char>, Seq<char>)>
    decreases props.len(),
{
    if props.len() == 0 {
        Seq::empty()
    } else {
        kept_cases(props.drop_last()) + match case_of(props.last()) {
            Option::Some(c) => seq![c],
            Option::None => Seq::empty(),
        }
    }
}

/// Case-order law: the ICU case fragments are exactly the kept cases of the
/// choices object, one fragment per kept case, in source property order.
pub proof fn lemma_case_order(props: Seq<PropV>)
    ensures
        choice_fragments(props).len() == kept_cases(props).len(),
        forall|i: int|
            0 <= i < kept_cases(props).len() ==> #[trigger] choice_fragments(props)[i] == fragment(
                kept_cases(props)[i].0,
                kept_cases(props)[i].1,
            ),
    decreases props.len(),
{
    if props.len() > 0 {
        lemma_case_order(props.drop_last());
    }
}

// ---------------------------------------------------------------------------
// Pass-through law
// ---------------------------------------------------------------------------

/// No rewrite rule matches anywhere in this tree.
pub open spec fn untouched(e: ExprV) -> bool
    decreases e,
{
    match e {
        ExprV::Ident(_) => true,
        ExprV::Member(obj, _) => untouched(*obj),
        ExprV::Call { callee, args } => rule_b(*callee, args) is None && untouched(*callee)
            && untouched_seq(args),
        ExprV::StrLit(_) => true,
        ExprV::Tpl(t) => untouched_seq(t.holes),
        ExprV::TaggedTpl { tag, tpl } => rule_a(*tag, tpl) is None && untouched(*tag)
            && untouched_seq(tpl.holes),
        ExprV::Object(props) => untouched_props(props),
        ExprV::Other(_) => true,
    }
}

pub open spec fn untouched_seq(s: Seq<ExprV>) -> bool
    decreases s,
{
    forall|i: int| 0 <= i < s.len() ==> untouched(#[trigger] s[i])
}

pub open spec fn untouched_prop(p: PropV) -> bool
    decreases p,
{
    match p {
        PropV::KeyValue(_, e) => untouched(e),
        _ => true,
    }
}

pub open spec fn untouched_props(s: Seq<PropV>) -> bool
    decreases s,
{
    forall|i: int| 0 <= i < s.len() ==> untouched_prop(#[trigger] s[i])
}

proof fn lemma_pass_through_seq(s: Seq<ExprV>)
    requires
        untouched_seq(s),
    ensures
        transform_seq(s) == s,
    decreases s,
{
    assert forall|i: int| 0 <= i < s.len() implies transform_seq(s)[i] == s[i] by {
        lemma_pass_through(s[i]);
    }
    assert(transform_seq(s) =~= s);
}

proof fn lemma_pass_through_props(s: Seq<PropV>)
    requires
        untouched_props(s),
    ensures
        transform_props(s) == s,
    decreases s,
{
    assert forall|i: int| 0 <= i < s.len() implies transform_props(s)[i] == s[i] by {
        match s[i] {
            PropV::KeyValue(k, e) => {
                lemma_pass_through(e);
                assert(transform_prop(s[i]) == s[i]);
            },
            _ => {
                assert(transform_prop(s[i]) == s[i]);
            },
        }
    }
    assert(transform_props(s) =~= s);
}

/// Pass-through law: a tree in which neither rule matches anywhere — in
/// particular any call or tagged template matching neither rule, with no
/// match below it — round-trips through the pass unchanged.
pub proof fn lemma_pass_through(e: ExprV)
    requires
        untouched(e),
    ensures
        transform(e) == e,
    decreases e,
{
    match e {
        ExprV::Ident(_) => {},
        ExprV::Member(obj, _) => {
            lemma_pass_through(*obj);
        },
        ExprV::Call { callee, args } => {
            lemma_pass_through(*callee);
            lemma_pass_through_seq(args);
        },
        ExprV::StrLit(_) => {},
        ExprV::Tpl(t) => {
            lemma_pass_through_seq(t.holes);
            assert(transform_template(t) =~= t);
        },
        ExprV::TaggedTpl { tag, tpl } => {
            lemma_pass_through(*tag);
            lemma_pass_through_seq(tpl.holes);
            assert(transform_template(tpl) =~= tpl);
        },
        ExprV::Object(props) => {
            lemma_pass_through_props(props);
        },
        ExprV::Other(_) => {},
    }
}

} // verus!

