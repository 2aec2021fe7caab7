//! The rewrite pass: placeholder resolution, template message building, ICU
//! choice message building, the two rewrite rules, and the traversal driver.

use vstd::prelude::*;
use vstd::string::StringExecFns;
use crate::ast::{Expr, ExprV, Template, Prop, PropV, exprs_view, props_view, strings_view};
use crate::model::{
    callee_is, choice_fragments, choice_values, default_context_name, expr_wf, exprs_wf, fragment,
    fragment_of, i18n_call, icu_message, is_lingui_name, join_space, join_space_prefix,
    placeholder_of, prop_of, props_wf, prop_wf, rule_a, rule_b, tag_name, template_deep_wf,
    template_wf, tpl_message, tpl_message_prefix, tpl_values, transform, transform_prop,
    transform_props, transform_seq, transform_template, translate_method_name, value_of,
    values_of_prop,
};
use crate::strings::{str_eq, usize_to_string};

verus! {

/// Is this one of the three recognized pluralization/selection macro names?
pub fn isLinguiFn(name: &str) -> (r: bool)
    ensures
        r == is_lingui_name(name@),
{
    proof {
        reveal_strlit("plural");
        reveal_strlit("select");
        reveal_strlit("selectOrdinal");
        assert("plural"@ =~= crate::model::kw_plural());
        assert("select"@ =~= crate::model::kw_select());
        assert("selectOrdinal"@ =~= crate::model::kw_select_ordinal());
    }
    str_eq(name, "plural") || str_eq(name, "select") || str_eq(name, "selectOrdinal")
}

/// Does a call's callee name `fnName` as a bare identifier?
pub fn matchCalleeName(callee: &Expr, fnName: &str) -> (r: bool)
    ensures
        r == callee_is(callee@, fnName@),
{
    match callee {
        Expr::Ident(id) => str_eq(id.as_str(), fnName),
        _ => false,
    }
}

/// A resolved interpolation hole: the placeholder used in the message, and
/// the hole's expression unless the placeholder doubles as a shorthand
/// binding for a bare identifier.
pub struct ValueWithPlaceholder {
    pub placeholder: String,
    pub value: Option<Expr>,
}

/// Mathematical value of a resolved hole.
pub struct VwpV {
    pub placeholder: Seq<char>,
    pub value: Option<ExprV>,
}

impl View for ValueWithPlaceholder {
    type V = VwpV;

    open spec fn view(&self) -> VwpV {
        VwpV {
            placeholder: self.placeholder@,
            value: match self.value {
                Option::Some(e) => Option::Some(e@),
                Option::None => Option::None,
            },
        }
    }
}

/// What placeholder resolution yields for a hole at position `i`.
pub open spec fn resolve_spec(e: ExprV, i: nat) -> VwpV {
    VwpV { placeholder: placeholder_of(e, i), value: value_of(e) }
}

/// The property a resolved hole contributes to the values object.
pub open spec fn vwp_prop(v: VwpV) -> PropV {
    match v.value {
        Option::None => PropV::Shorthand(v.placeholder),
        Option::Some(e) => PropV::KeyValue(v.placeholder, e),
    }
}

impl ValueWithPlaceholder {
    /// A shorthand property when the value is absent, a key-value property
    /// otherwise.
    pub fn to_prop(&self) -> (r: Prop)
        ensures
            r@ == vwp_prop(self@),
    {
        match &self.value {
            Option::Some(e) => Prop::KeyValue(self.placeholder.clone(), e.deep_clone()),
            Option::None => Prop::Shorthand(self.placeholder.clone()),
        }
    }
}

/// One ICU case fragment: `<name> {<msg>}`.
fn make_fragment(name: &str, msg: &str) -> (r: String)
    ensures
        r@ == fragment(name@, msg@),
{
    let mut r = name.to_owned();
    r.append(" ");
    r.append("{");
    r.append(msg);
    r.append("}");
    proof {
        reveal_strlit(" ");
        reveal_strlit("{");
        reveal_strlit("}");
        assert(r@ =~= fragment(name@, msg@));
    }
    r
}

/// The rewrite pass over one expression tree.
pub struct TransformVisitor;

impl TransformVisitor {
    /// Placeholder resolution: a bare identifier keeps its name as the
    /// placeholder with no value; any other expression gets the stringified
    /// position `i` and carries the untouched expression.
    pub fn get_value_with_placeholder(&self, expr: Expr, i: usize) -> (r: ValueWithPlaceholder)
        ensures
            r@ == resolve_spec(expr@, i as nat),
    {
        match expr {
            Expr::Ident(name) => ValueWithPlaceholder { placeholder: name, value: Option::None },
            e => ValueWithPlaceholder {
                placeholder: usize_to_string(i),
                value: Option::Some(e),
            },
        }
    }

    /// Template message building: chunks and placeholder markers in source
    /// order, and one values entry per hole, with no deduplication.
    pub fn transform_tpl_to_msg_and_values(&self, tpl: &Template) -> (r: (String, Vec<Prop>))
        requires
            template_wf(tpl@),
        ensures
            r.0@ == tpl_message(tpl@),
            props_view(r.1) == tpl_values(tpl@),
    {
        let mut message = String::new();
        let mut props: Vec<Prop> = Vec::new();
        let mut i: usize = 0;
        proof {
            reveal_strlit("{");
            reveal_strlit("}");
        }
        while i < tpl.chunks.len()
            invariant
                template_wf(tpl@),
                i <= tpl.chunks.len(),
                message@ == tpl_message_prefix(tpl@, i as nat),
                props@.len() == if i <= tpl.holes.len() {
                    i as int
                } else {
                    tpl.holes@.len() as int
                },
                forall|k: int|
                    0 <= k < props@.len() ==> #[trigger] crate::ast::prop_view(props@[k])
                        == prop_of(tpl@.holes[k], k as nat),
                "{"@ == seq!['{'],
                "}"@ == seq!['}'],
            decreases tpl.chunks.len() - i,
        {
            message.append(tpl.chunks[i].as_str());
            if i < tpl.holes.len() {
                let val = self.get_value_with_placeholder(tpl.holes[i].deep_clone(), i);
                props.push(val.to_prop());
                message.append("{");
                message.append(val.placeholder.as_str());
                message.append("}");
                assert(tpl@.holes[i as int] == tpl.holes[i as int]@);
                assert(val@.placeholder == placeholder_of(tpl@.holes[i as int], i as nat));
            }
            assert(tpl@.chunks[i as int] == tpl.chunks[i as int]@);
            assert(message@ =~= tpl_message_prefix(tpl@, (i + 1) as nat));
            i = i + 1;
        }
        assert(message@ == tpl_message(tpl@));
        proof {
            assert forall|k: int| 0 <= k < props@.len() implies props_view(props)[k]
                == tpl_values(tpl@)[k] by {
                assert(props_view(props)[k] == crate::ast::prop_view(props@[k]));
                assert(tpl_values(tpl@)[k] == prop_of(tpl@.holes[k], k as nat));
            }
            assert(props_view(props) =~= tpl_values(tpl@));
        }
        (message, props)
    }

    /// The replacement call: `<callee_obj>.<translate method>(<message>,
    /// {<values>})`.
    pub fn create_i18n_fn_call(&self, callee_obj: Expr, message: &str, values: Vec<Prop>) -> (r:
        Expr)
        ensures
            r@ == i18n_call(callee_obj@, message@, props_view(values)),
    {
        let ghost gctx = callee_obj@;
        let ghost gvals = props_view(values);
        proof {
            reveal_strlit("_");
            assert("_"@ =~= translate_method_name());
        }
        let callee = Expr::Member(Box::new(callee_obj), "_".to_owned());
        assert(callee@ == ExprV::Member(Box::new(gctx), translate_method_name()));
        let ghost gcallee = callee@;
        let mut args: Vec<Expr> = Vec::new();
        args.push(Expr::StrLit(message.to_owned()));
        args.push(Expr::Object(values));
        assert(exprs_view(args) =~= seq![ExprV::StrLit(message@), ExprV::Object(gvals)]);
        let ghost gargs = exprs_view(args);
        let r = Expr::Call { callee: Box::new(callee), args };
        assert(r@ == ExprV::Call { callee: Box::new(gcallee), args: gargs });
        assert(r@ == i18n_call(gctx, message@, gvals));
        r
    }

    /// ICU choice message building: each string-literal case is used
    /// verbatim, each template case is built by the template builder and its
    /// values appended in order, and any other property shape is skipped.
    /// Fragments are joined with a single space, in source property order.
    pub fn get_icu_from_choices_obj(
        &self,
        props: &Vec<Prop>,
        icu_value_ident: &str,
        icu_method: &str,
    ) -> (r: (String, Vec<Prop>))
        requires
            props_wf(props_view(*props)),
        ensures
            r.0@ == icu_message(icu_value_ident@, icu_method@, props_view(*props)),
            props_view(r.1) == choice_values(props_view(*props)),
    {
        let ghost pv = props_view(*props);
        let mut icuParts: Vec<String> = Vec::new();
        let mut all_values: Vec<Prop> = Vec::new();
        let mut i: usize = 0;
        while i < props.len()
            invariant
                props_wf(pv),
                pv == props_view(*props),
                i <= props@.len(),
                strings_view(icuParts@) == choice_fragments(pv.take(i as int)),
                props_view(all_values) == choice_values(pv.take(i as int)),
            decreases props@.len() - i,
        {
            let ghost parts0 = strings_view(icuParts@);
            let ghost values0 = props_view(all_values);
            assert(pv[i as int] == props[i as int]@);
            assert(prop_wf(pv[i as int]));
            match &props[i] {
                Prop::KeyValue(key, value) => match value {
                    Expr::StrLit(s) => {
                        icuParts.push(make_fragment(key.as_str(), s.as_str()));
                    },
                    Expr::Tpl(t) => {
                        let (msg, values) = self.transform_tpl_to_msg_and_values(t);
                        icuParts.push(make_fragment(key.as_str(), msg.as_str()));
                        let ghost gv = props_view(values);
                        let mut values = values;
                        all_values.append(&mut values);
                        assert(props_view(all_values) =~= values0 + gv);
                    },
                    _ => {},
                },
                _ => {},
            }
            proof {
                assert(pv.take(i + 1).drop_last() =~= pv.take(i as int));
                assert(pv.take(i + 1).last() == pv[i as int]);
                assert(strings_view(icuParts@) =~= parts0 + fragment_of(pv[i as int]));
                assert(props_view(all_values) =~= values0 + values_of_prop(pv[i as int]));
            }
            i = i + 1;
        }
        assert(pv.take(props@.len() as int) =~= pv);
        let ghost frags = choice_fragments(pv);
        let mut msg = String::new();
        msg.append("{");
        msg.append(icu_value_ident);
        msg.append(", ");
        msg.append(icu_method);
        msg.append(", ");
        proof {
            reveal_strlit("{");
            reveal_strlit("}");
            reveal_strlit(", ");
            assert(", "@ =~= seq![',', ' ']);
            assert("{"@ =~= seq!['{']);
            assert("}"@ =~= seq!['}']);
        }
        let ghost head = seq!['{'] + icu_value_ident@ + seq![',', ' '] + icu_method@ + seq![
            ',',
            ' ',
        ];
        assert(msg@ =~= head);
        let mut j: usize = 0;
        while j < icuParts.len()
            invariant
                j <= icuParts@.len(),
                frags == strings_view(icuParts@),
                msg@ == head + join_space_prefix(frags, j as nat),
            decreases icuParts@.len() - j,
        {
            if j > 0 {
                msg.append(" ");
                proof {
                    reveal_strlit(" ");
                }
            }
            msg.append(icuParts[j].as_str());
            assert(frags[j as int] == icuParts[j as int]@);
            assert(msg@ =~= head + join_space_prefix(frags, (j + 1) as nat));
            j = j + 1;
        }
        msg.append("}");
        assert(msg@ =~= icu_message(icu_value_ident@, icu_method@, pv)) by {
            assert(join_space_prefix(frags, icuParts@.len() as nat) == join_space(frags));
        }
        (msg, all_values)
    }

    /// Rule A on a tagged template: `Some` exactly when the tag is a call to
    /// the tag macro with one argument or a bare reference to it, carrying
    /// the replacement call.
    pub fn try_rule_a(&self, tag: &Expr, tpl: &Template) -> (r: Option<Expr>)
        requires
            template_wf(tpl@),
        ensures
            (match r {
                Option::Some(x) => rule_a(tag@, tpl@) == Option::Some(x@),
                Option::None => rule_a(tag@, tpl@) is None,
            }),
    {
        proof {
            reveal_strlit("t");
            assert("t"@ =~= tag_name());
        }
        match tag {
            Expr::Call { callee, args } => {
                proof {
                    assert(tag@ == ExprV::Call {
                        callee: Box::new(callee@),
                        args: exprs_view(*args),
                    });
                    assert(exprs_view(*args).len() == args@.len());
                }
                if matchCalleeName(callee, "t") && args.len() == 1 {
                    let (message, values) = self.transform_tpl_to_msg_and_values(tpl);
                    let ctx = args[0].deep_clone();
                    assert(ctx@ == exprs_view(*args)[0]);
                    let r = self.create_i18n_fn_call(ctx, message.as_str(), values);
                    assert(rule_a(tag@, tpl@) == Option::Some(r@));
                    Option::Some(r)
                } else {
                    Option::None
                }
            },
            Expr::Ident(name) => {
                if str_eq(name.as_str(), "t") {
                    proof {
                        reveal_strlit("i18n");
                        assert("i18n"@ =~= default_context_name());
                    }
                    let (message, values) = self.transform_tpl_to_msg_and_values(tpl);
                    let r = self.create_i18n_fn_call(
                        Expr::Ident("i18n".to_owned()),
                        message.as_str(),
                        values,
                    );
                    Option::Some(r)
                } else {
                    Option::None
                }
            },
            _ => Option::None,
        }
    }

    /// Rule B on a call: `Some` exactly when the callee names one of the
    /// three selection macros, with two arguments, the second an object
    /// literal, carrying the replacement call.
    pub fn try_rule_b(&self, callee: &Expr, args: &Vec<Expr>) -> (r: Option<Expr>)
        requires
            exprs_wf(exprs_view(*args)),
        ensures
            (match r {
                Option::Some(x) => rule_b(callee@, exprs_view(*args)) == Option::Some(x@),
                Option::None => rule_b(callee@, exprs_view(*args)) is None,
            }),
    {
        let ghost argsv = exprs_view(*args);
        match callee {
            Expr::Ident(name) => {
                if isLinguiFn(name.as_str()) && args.len() == 2 {
                    match &args[1] {
                        Expr::Object(props) => {
                            assert(argsv[1] == ExprV::Object(props_view(*props)));
                            assert(expr_wf(argsv[1]));
                            let icu_value = self.get_value_with_placeholder(
                                args[0].deep_clone(),
                                0,
                            );
                            let (message, values) = self.get_icu_from_choices_obj(
                                props,
                                icu_value.placeholder.as_str(),
                                name.as_str(),
                            );
                            let mut allValues: Vec<Prop> = Vec::new();
                            allValues.push(icu_value.to_prop());
                            let ghost gv = props_view(values);
                            let mut values = values;
                            allValues.append(&mut values);
                            assert(props_view(allValues) =~= seq![prop_of(argsv[0], 0)] + gv);
                            proof {
                                reveal_strlit("i18n");
                                assert("i18n"@ =~= default_context_name());
                            }
                            let r = self.create_i18n_fn_call(
                                Expr::Ident("i18n".to_owned()),
                                message.as_str(),
                                allValues,
                            );
                            Option::Some(r)
                        },
                        _ => Option::None,
                    }
                } else {
                    Option::None
                }
            },
            _ => Option::None,
        }
    }

    /// The traversal driver: tries rule A on every tagged template and rule
    /// B on every call; on a match, descent stops at the rewritten node;
    /// otherwise descent continues into the children; any node matching
    /// neither rule is rebuilt unchanged around its transformed children.
    pub fn fold_expr(&self, e: &Expr) -> (r: Expr)
        requires
            expr_wf(e@),
        ensures
            r@ == transform(e@),
        decreases *e, 1int,
    {
        match e {
            Expr::TaggedTpl { tag, tpl } => {
                proof {
                    assert(e@ == ExprV::TaggedTpl { tag: Box::new(tag@), tpl: tpl@ });
                    assert(expr_wf(tag@) && template_deep_wf(tpl@));
                }
                match self.try_rule_a(tag, tpl) {
                    Option::Some(r) => r,
                    Option::None => {
                        let r = Expr::TaggedTpl {
                            tag: Box::new(self.fold_expr(tag)),
                            tpl: self.fold_template(tpl),
                        };
                        assert(r@ == transform(e@));
                        r
                    },
                }
            },
            Expr::Call { .. } => {
                proof {
                    assert(e@ is Call);
                }
                self.fold_call_expr(e)
            },
            Expr::Member(obj, prop) => {
                proof {
                    assert(e@ == ExprV::Member(Box::new(obj@), prop@));
                    assert(expr_wf(obj@));
                }
                let r = Expr::Member(Box::new(self.fold_expr(obj)), prop.clone());
                assert(r@ == transform(e@));
                r
            },
            Expr::Tpl(t) => {
                proof {
                    assert(e@ == ExprV::Tpl(t@));
                    assert(template_deep_wf(t@));
                }
                let r = Expr::Tpl(self.fold_template(t));
                assert(r@ == transform(e@));
                r
            },
            Expr::Object(props) => {
                proof {
                    assert(e@ == ExprV::Object(props_view(*props)));
                    assert(props_wf(props_view(*props)));
                }
                let r = Expr::Object(self.fold_props(props));
                assert(r@ == transform(e@));
                r
            },
            Expr::Ident(name) => Expr::Ident(name.clone()),
            Expr::StrLit(s) => Expr::StrLit(s.clone()),
            Expr::Other(k) => Expr::Other(*k),
        }
    }

    /// Rule B at a call node, descending into the callee and the arguments
    /// when the rule does not match.
    pub fn fold_call_expr(&self, e: &Expr) -> (r: Expr)
        requires
            expr_wf(e@),
            e@ is Call,
        ensures
            r@ == transform(e@),
        decreases *e, 0int,
    {
        match e {
            Expr::Call { callee, args } => {
                proof {
                    assert(e@ == ExprV::Call { callee: Box::new(callee@), args: exprs_view(*args) });
                    assert(expr_wf(callee@) && exprs_wf(exprs_view(*args)));
                }
                match self.try_rule_b(callee, args) {
                    Option::Some(r) => r,
                    Option::None => {
                        let r = Expr::Call {
                            callee: Box::new(self.fold_expr(callee)),
                            args: self.fold_exprs(args),
                        };
                        assert(r@ == transform(e@));
                        r
                    },
                }
            },
            _ => {
                proof {
                    assert(false);
                }
                vstd::pervasive::unreached()
            },
        }
    }

    fn fold_exprs(&self, v: &Vec<Expr>) -> (r: Vec<Expr>)
        requires
            exprs_wf(exprs_view(*v)),
        ensures
            exprs_view(r) == transform_seq(exprs_view(*v)),
        decreases *v, 2int,
    {
        let mut r: Vec<Expr> = Vec::new();
        let mut j: usize = 0;
        while j < v.len()
            invariant
                exprs_wf(exprs_view(*v)),
                j <= v@.len(),
                r@.len() == j as int,
                forall|k: int|
                    0 <= k < j ==> #[trigger] crate::ast::expr_view(r@[k]) == transform(
                        exprs_view(*v)[k],
                    ),
            decreases v@.len() - j,
        {
            assert(expr_wf(exprs_view(*v)[j as int]));
            r.push(self.fold_expr(&v[j]));
            j = j + 1;
        }
        proof {
            let ev = exprs_view(*v);
            assert forall|k: int| 0 <= k < ev.len() implies exprs_view(r)[k] == transform_seq(
                ev,
            )[k] by {
                assert(exprs_view(r)[k] == crate::ast::expr_view(r@[k]));
                assert(transform_seq(ev)[k] == transform(ev[k]));
            }
            assert(exprs_view(r) =~= transform_seq(ev));
        }
        r
    }

    fn fold_template(&self, t: &Template) -> (r: Template)
        requires
            exprs_wf(exprs_view(t.holes)),
        ensures
            r@ == transform_template(t@),
        decreases *t, 2int,
    {
        let mut chunks: Vec<String> = Vec::new();
        let mut j: usize = 0;
        while j < t.chunks.len()
            invariant
                j <= t.chunks@.len(),
                chunks@.len() == j as int,
                forall|k: int| 0 <= k < j ==> #[trigger] chunks@[k]@ == t.chunks@[k]@,
            decreases t.chunks@.len() - j,
        {
            chunks.push(t.chunks[j].clone());
            j = j + 1;
        }
        let holes = self.fold_exprs(&t.holes);
        let r = Template { chunks, holes };
        assert(strings_view(r.chunks@) =~= strings_view(t.chunks@));
        assert(r@ == transform_template(t@));
        r
    }

    fn fold_props(&self, v: &Vec<Prop>) -> (r: Vec<Prop>)
        requires
            props_wf(props_view(*v)),
        ensures
            props_view(r) == transform_props(props_view(*v)),
        decreases *v, 2int,
    {
        let mut r: Vec<Prop> = Vec::new();
        let mut j: usize = 0;
        while j < v.len()
            invariant
                props_wf(props_view(*v)),
                j <= v@.len(),
                r@.len() == j as int,
                forall|k: int|
                    0 <= k < j ==> #[trigger] crate::ast::prop_view(r@[k]) == transform_prop(
                        props_view(*v)[k],
                    ),
            decreases v@.len() - j,
        {
            assert(prop_wf(props_view(*v)[j as int]));
            let p = match &v[j] {
                Prop::KeyValue(key, value) => Prop::KeyValue(key.clone(), self.fold_expr(value)),
                Prop::Shorthand(key) => Prop::Shorthand(key.clone()),
                Prop::Other(k) => Prop::Other(*k),
            };
            r.push(p);
            j = j + 1;
        }
        proof {
            let pv = props_view(*v);
            assert forall|k: int| 0 <= k < pv.len() implies props_view(r)[k] == transform_props(
                pv,
            )[k] by {
                assert(props_view(r)[k] == crate::ast::prop_view(r@[k]));
                assert(transform_props(pv)[k] == transform_prop(pv[k]));
            }
            assert(props_view(r) =~= transform_props(pv));
        }
        r
    }
}

/// Is every template in this tree well formed (one more chunk than holes)?
/// The parser guarantees this of the trees it hands over; a host can use this
/// to check it before running the pass.
pub fn check_expr_wf(e: &Expr) -> (r: bool)
    ensures
        r == expr_wf(e@),
    decreases *e, 1int,
{
    match e {
        Expr::Ident(_) => true,
        Expr::Member(obj, _) => check_expr_wf(obj),
        Expr::Call { callee, args } => check_expr_wf(callee) && check_exprs_wf(args),
        Expr::StrLit(_) => true,
        Expr::Tpl(t) => check_template_wf(t),
        Expr::TaggedTpl { tag, tpl } => check_expr_wf(tag) && check_template_wf(tpl),
        Expr::Object(props) => check_props_wf(props),
        Expr::Other(_) => true,
    }
}

fn check_exprs_wf(v: &Vec<Expr>) -> (r: bool)
    ensures
        r == exprs_wf(exprs_view(*v)),
    decreases *v, 2int,
{
    let mut j: usize = 0;
    while j < v.len()
        invariant
            j <= v@.len(),
            forall|k: int| 0 <= k < j ==> expr_wf(#[trigger] exprs_view(*v)[k]),
        decreases v@.len() - j,
    {
        if !check_expr_wf(&v[j]) {
            assert(!expr_wf(exprs_view(*v)[j as int]));
            return false;
        }
        j = j + 1;
    }
    true
}

/// Is this template well formed, holes included?
pub fn check_template_wf(t: &Template) -> (r: bool)
    ensures
        r == template_deep_wf(t@),
    decreases *t, 2int,
{
    t.chunks.len() >= 1 && t.chunks.len() - 1 == t.holes.len() && check_exprs_wf(&t.holes)
}

fn check_props_wf(v: &Vec<Prop>) -> (r: bool)
    ensures
        r == props_wf(props_view(*v)),
    decreases *v, 2int,
{
    let mut j: usize = 0;
    while j < v.len()
        invariant
            j <= v@.len(),
            forall|k: int| 0 <= k < j ==> prop_wf(#[trigger] props_view(*v)[k]),
        decreases v@.len() - j,
    {
        let ok = match &v[j] {
            Prop::KeyValue(_, value) => check_expr_wf(value),
            _ => true,
        };
        if !ok {
            assert(!prop_wf(props_view(*v)[j as int]));
            return false;
        }
        j = j + 1;
    }
    true
}

} // verus!
