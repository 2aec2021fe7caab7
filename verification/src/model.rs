//! Mathematical model of the rewrite pass: what placeholder a hole gets, what
//! message a template builds, what ICU fragment a choices object builds, and
//! what the two rewrite rules and the traversal produce.

use vstd::prelude::*;
use crate::ast::{ExprV, TemplateV, PropV};

verus! {

// ---------------------------------------------------------------------------
// Fixed macro names
// ---------------------------------------------------------------------------

/// Name of the translation tag macro.
pub open spec fn tag_name() -> Seq<char> {
    seq!['t']
}

/// Name of the default translation-context identifier.
pub open spec fn default_context_name() -> Seq<char> {
    seq!['i', '1', '8', 'n']
}

/// Name of the runtime translate method on the context object.
pub open spec fn translate_method_name() -> Seq<char> {
    seq!['_']
}

pub open spec fn kw_plural() -> Seq<char> {
    seq!['p', 'l', 'u', 'r', 'a', 'l']
}

pub open spec fn kw_select() -> Seq<char> {
    seq!['s', 'e', 'l', 'e', 'c', 't']
}

pub open spec fn kw_select_ordinal() -> Seq<char> {
    seq!['s', 'e', 'l', 'e', 'c', 't', 'O', 'r', 'd', 'i', 'n', 'a', 'l']
}

/// The three recognized pluralization/selection macro names.
pub open spec fn is_lingui_name(name: Seq<char>) -> bool {
    name == kw_plural() || name == kw_select() || name == kw_select_ordinal()
}

// ---------------------------------------------------------------------------
// Decimal rendering of positional indices
// ---------------------------------------------------------------------------

pub open spec fn digit_char(d: nat) -> char {
    if d == 0 {
        '0'
    } else if d == 1 {
        '1'
    } else if d == 2 {
        '2'
    } else if d == 3 {
        '3'
    } else if d == 4 {
        '4'
    } else if d == 5 {
        '5'
    } else if d == 6 {
        '6'
    } else if d == 7 {
        '7'
    } else if d == 8 {
        '8'
    } else {
        '9'
    }
}

/// Decimal representation of a nonnegative integer, most significant digit
/// first, no leading zeros (except for zero itself).
pub open spec fn decimal(n: nat) -> Seq<char>
    decreases n,
{
    if n < 10 {
        seq![digit_char(n)]
    } else {
        decimal(n / 10) + seq![digit_char(n % 10)]
    }
}

// ---------------------------------------------------------------------------
// Placeholder resolution
// ---------------------------------------------------------------------------

/// Placeholder chosen for a hole expression standing at zero-based position
/// `i` within its own template: a bare identifier keeps its name, anything
/// else gets the stringified position.
pub open spec fn placeholder_of(e: ExprV, i: nat) -> Seq<char> {
    match e {
        ExprV::Ident(name) => name,
        _ => decimal(i),
    }
}

/// The resolved value of a hole: absent for a bare identifier (the
/// placeholder doubles as a shorthand binding), the untouched expression
/// otherwise.
pub open spec fn value_of(e: ExprV) -> Option<ExprV> {
    match e {
        ExprV::Ident(_) => None,
        _ => Some(e),
    }
}

/// The property a resolved hole contributes to the values object.
pub open spec fn prop_of(e: ExprV, i: nat) -> PropV {
    match e {
        ExprV::Ident(name) => PropV::Shorthand(name),
        _ => PropV::KeyValue(decimal(i), e),
    }
}

// ---------------------------------------------------------------------------
// Template message building
// ---------------------------------------------------------------------------

/// A well-formed template has exactly one more text chunk than holes.
pub open spec fn template_wf(t: TemplateV) -> bool {
    t.chunks.len() == t.holes.len() + 1
}

pub open spec fn braced(s: Seq<char>) -> Seq<char> {
    seq!['{'] + s + seq!['}']
}

/// Message text contributed by the first `i` chunks of a template: each
/// chunk's raw text followed by the placeholder marker of the hole after it,
/// if the template has a hole at that position.
pub open spec fn tpl_message_prefix(t: TemplateV, i: nat) -> Seq<char>
    decreases i,
{
    if i == 0 {
        Seq::empty()
    } else {
        let j = (i - 1) as nat;
        tpl_message_prefix(t, j) + t.chunks[j as int] + if j < t.holes.len() {
            braced(placeholder_of(t.holes[j as int], j))
        } else {
            Seq::empty()
        }
    }
}

/// The message string a template builds: chunks and placeholder markers in
/// source order.
pub open spec fn tpl_message(t: TemplateV) -> Seq<char> {
    tpl_message_prefix(t, t.chunks.len())
}

/// The ordered values list a template builds: one entry per hole, in hole
/// order, with no deduplication.
pub open spec fn tpl_values(t: TemplateV) -> Seq<PropV> {
    Seq::new(
        t.holes.len(),
        |i: int|
            if 0 <= i < t.holes.len() {
                prop_of(t.holes[i], i as nat)
            } else {
                arbitrary()
            },
    )
}

// ---------------------------------------------------------------------------
// ICU choice message building
// ---------------------------------------------------------------------------

/// One ICU case fragment: `<caseName> {<msg>}`.
pub open spec fn fragment(name: Seq<char>, msg: Seq<char>) -> Seq<char> {
    name + seq![' '] + braced(msg)
}

/// The case fragment one choices-object property contributes, if any: a
/// string-literal value is used verbatim, a template value is built by the
/// template builder, and any other property shape is skipped.
pub open spec fn fragment_of(p: PropV) -> Seq<Seq<char>> {
    match p {
        PropV::KeyValue(name, value) => match value {
            ExprV::StrLit(s) => seq![fragment(name, s)],
            ExprV::Tpl(t) => seq![fragment(name, tpl_message(t))],
            _ => Seq::empty(),
        },
        _ => Seq::empty(),
    }
}

/// The values one choices-object property contributes: the values of its
/// template body, if it has one.
pub open spec fn values_of_prop(p: PropV) -> Seq<PropV> {
    match p {
        PropV::KeyValue(name, value) => match value {
            ExprV::Tpl(t) => tpl_values(t),
            _ => Seq::empty(),
        },
        _ => Seq::empty(),
    }
}

/// ICU case fragments of a choices object, in source property order.
pub open spec fn choice_fragments(props: Seq<PropV>) -> Seq<Seq<char>>
    decreases props.len(),
{
    if props.len() == 0 {
        Seq::empty()
    } else {
        choice_fragments(props.drop_last()) + fragment_of(props.last())
    }
}

/// Aggregate values of a choices object: each case's template values
/// appended in source property order, with no deduplication.
pub open spec fn choice_values(props: Seq<PropV>) -> Seq<PropV>
    decreases props.len(),
{
    if props.len() == 0 {
        Seq::empty()
    } else {
        choice_values(props.drop_last()) + values_of_prop(props.last())
    }
}

/// The first `i` fragments joined with a single space.
pub open spec fn join_space_prefix(frags: Seq<Seq<char>>, i: nat) -> Seq<char>
    decreases i,
{
    if i == 0 {
        Seq::empty()
    } else if i == 1 {
        frags[0]
    } else {
        join_space_prefix(frags, (i - 1) as nat) + seq![' '] + frags[i - 1]
    }
}

pub open spec fn join_space(frags: Seq<Seq<char>>) -> Seq<char> {
    join_space_prefix(frags, frags.len())
}

/// The full ICU message: `{<selector>, <keyword>, <fragment> <fragment> ...}`.
pub open spec fn icu_message(sel: Seq<char>, kw: Seq<char>, props: Seq<PropV>) -> Seq<char> {
    braced(sel + seq![',', ' '] + kw + seq![',', ' '] + join_space(choice_fragments(props)))
}

// ---------------------------------------------------------------------------
// The generated call and the two rewrite rules
// ---------------------------------------------------------------------------

/// The replacement call: `<ctx>.<translate method>(<msg>, {<values>})`.
pub open spec fn i18n_call(ctx: ExprV, msg: Seq<char>, values: Seq<PropV>) -> ExprV {
    ExprV::Call {
        callee: Box::new(ExprV::Member(Box::new(ctx), translate_method_name())),
        args: seq![ExprV::StrLit(msg), ExprV::Object(values)],
    }
}

/// Does this expression name `name` as a bare identifier?
pub open spec fn callee_is(callee: ExprV, name: Seq<char>) -> bool {
    callee == ExprV::Ident(name)
}

/// Rule A, on a tagged template: the tag is either a call to the tag macro
/// with exactly one argument (that argument is the translation context), or a
/// bare reference to the tag macro (the context defaults to the default
/// context identifier). Anything else does not match.
pub open spec fn rule_a(tag: ExprV, tpl: TemplateV) -> Option<ExprV> {
    match tag {
        ExprV::Call { callee, args } => if callee_is(*callee, tag_name()) && args.len() == 1 {
            Some(i18n_call(args[0], tpl_message(tpl), tpl_values(tpl)))
        } else {
            None
        },
        ExprV::Ident(name) => if name == tag_name() {
            Some(i18n_call(ExprV::Ident(default_context_name()), tpl_message(tpl), tpl_values(tpl)))
        } else {
            None
        },
        _ => None,
    }
}

/// Rule B, on a call: the callee is a bare reference to one of the three
/// selection macros, with exactly two arguments, the second an object
/// literal. The first argument, resolved at position zero, is the selector;
/// the macro name is the ICU keyword; the selector's entry precedes the case
/// values. Anything else does not match.
pub open spec fn rule_b(callee: ExprV, args: Seq<ExprV>) -> Option<ExprV> {
    match callee {
        ExprV::Ident(name) => if is_lingui_name(name) && args.len() == 2 {
            match args[1] {
                ExprV::Object(props) => Some(
                    i18n_call(
                        ExprV::Ident(default_context_name()),
                        icu_message(placeholder_of(args[0], 0), name, props),
                        seq![prop_of(args[0], 0)] + choice_values(props),
                    ),
                ),
                _ => None,
            }
        } else {
            None
        },
        _ => None,
    }
}

// ---------------------------------------------------------------------------
// The traversal
// ---------------------------------------------------------------------------

/// The full pass over one expression tree: rule A is tried on every tagged
/// template and rule B on every call; on a match, descent stops at the
/// matched node; otherwise descent continues into the children; every other
/// node shape is descended into unchanged, and leaves are kept as they are.
pub open spec fn transform(e: ExprV) -> ExprV
    decreases e,
{
    match e {
        ExprV::TaggedTpl { tag, tpl } => match rule_a(*tag, tpl) {
            Some(r) => r,
            None => ExprV::TaggedTpl {
                tag: Box::new(transform(*tag)),
                tpl: transform_template(tpl),
            },
        },
        ExprV::Call { callee, args } => match rule_b(*callee, args) {
            Some(r) => r,
            None => ExprV::Call { callee: Box::new(transform(*callee)), args: transform_seq(args) },
        },
        ExprV::Member(obj, prop) => ExprV::Member(Box::new(transform(*obj)), prop),
        ExprV::Tpl(t) => ExprV::Tpl(transform_template(t)),
        ExprV::Object(props) => ExprV::Object(transform_props(props)),
        ExprV::Ident(_) => e,
        ExprV::StrLit(_) => e,
        ExprV::Other(_) => e,
    }
}

pub open spec fn transform_seq(s: Seq<ExprV>) -> Seq<ExprV>
    decreases s,
{
    Seq::new(
        s.len(),
        |i: int|
            if 0 <= i < s.len() {
                transform(s[i])
            } else {
                arbitrary()
            },
    )
}

pub open spec fn transform_template(t: TemplateV) -> TemplateV
    decreases t,
{
    TemplateV { chunks: t.chunks, holes: transform_seq(t.holes) }
}

pub open spec fn transform_prop(p: PropV) -> PropV
    decreases p,
{
    match p {
        PropV::KeyValue(k, e) => PropV::KeyValue(k, transform(e)),
        _ => p,
    }
}

pub open spec fn transform_props(s: Seq<PropV>) -> Seq<PropV>
    decreases s,
{
    Seq::new(
        s.len(),
        |i: int|
            if 0 <= i < s.len() {
                transform_prop(s[i])
            } else {
                arbitrary()
            },
    )
}

// ---------------------------------------------------------------------------
// Well-formedness: every template in the tree has one more chunk than holes
// ---------------------------------------------------------------------------

pub open spec fn expr_wf(e: ExprV) -> bool
    decreases e,
{
    match e {
        ExprV::Ident(_) => true,
        ExprV::Member(obj, _) => expr_wf(*obj),
        ExprV::Call { callee, args } => expr_wf(*callee) && exprs_wf(args),
        ExprV::StrLit(_) => true,
        ExprV::Tpl(t) => template_deep_wf(t),
        ExprV::TaggedTpl { tag, tpl } => expr_wf(*tag) && template_deep_wf(tpl),
        ExprV::Object(props) => props_wf(props),
        ExprV::Other(_) => true,
    }
}

pub open spec fn exprs_wf(s: Seq<ExprV>) -> bool
    decreases s,
{
    forall|i: int| 0 <= i < s.len() ==> expr_wf(#[trigger] s[i])
}

pub open spec fn template_deep_wf(t: TemplateV) -> bool
    decreases t,
{
    template_wf(t) && exprs_wf(t.holes)
}

pub open spec fn prop_wf(p: PropV) -> bool
    decreases p,
{
    match p {
        PropV::KeyValue(_, e) => expr_wf(e),
        _ => true,
    }
}

pub open spec fn props_wf(s: Seq<PropV>) -> bool
    decreases s,
{
    forall|i: int| 0 <= i < s.len() ==> prop_wf(#[trigger] s[i])
}

} // verus!
