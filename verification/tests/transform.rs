use lingui_transform::ast::{Expr, Prop, Template};
use lingui_transform::strings::{str_eq, usize_to_string};
use lingui_transform::visitor::{
    check_expr_wf, check_template_wf, isLinguiFn, matchCalleeName, TransformVisitor,
    ValueWithPlaceholder,
};

fn id(name: &str) -> Expr {
    Expr::Ident(name.to_string())
}

fn member(obj: Expr, prop: &str) -> Expr {
    Expr::Member(Box::new(obj), prop.to_string())
}

fn call(callee: Expr, args: Vec<Expr>) -> Expr {
    Expr::Call { callee: Box::new(callee), args }
}

fn strlit(s: &str) -> Expr {
    Expr::StrLit(s.to_string())
}

fn tpl(chunks: Vec<&str>, holes: Vec<Expr>) -> Template {
    Template { chunks: chunks.into_iter().map(|c| c.to_string()).collect(), holes }
}

fn tagged(tag: Expr, t: Template) -> Expr {
    Expr::TaggedTpl { tag: Box::new(tag), tpl: t }
}

fn kv(key: &str, value: Expr) -> Prop {
    Prop::KeyValue(key.to_string(), value)
}

fn shorthand(key: &str) -> Prop {
    Prop::Shorthand(key.to_string())
}

/// The expected replacement call: `<ctx>._(<message>, {<values>})`.
fn i18n_call(ctx: Expr, message: &str, values: Vec<Prop>) -> Expr {
    call(member(ctx, "_"), vec![strlit(message), Expr::Object(values)])
}

#[test]
fn tpl_no_holes() {
    let v = TransformVisitor;
    let e = tagged(id("t"), tpl(vec!["Refresh inbox"], vec![]));
    let out = v.fold_expr(&e);
    assert_eq!(out, i18n_call(id("i18n"), "Refresh inbox", vec![]));
}

#[test]
fn tpl_named_holes() {
    let v = TransformVisitor;
    let e = tagged(id("t"), tpl(vec!["Refresh ", " inbox ", ""], vec![id("foo"), id("bar")]));
    let out = v.fold_expr(&e);
    assert_eq!(
        out,
        i18n_call(
            id("i18n"),
            "Refresh {foo} inbox {bar}",
            vec![shorthand("foo"), shorthand("bar")],
        )
    );
}

#[test]
fn tpl_positional_and_named() {
    let v = TransformVisitor;
    let e = tagged(
        id("t"),
        tpl(vec!["Refresh ", " inbox ", ""], vec![member(id("foo"), "bar"), id("bar")]),
    );
    let out = v.fold_expr(&e);
    assert_eq!(
        out,
        i18n_call(
            id("i18n"),
            "Refresh {0} inbox {bar}",
            vec![kv("0", member(id("foo"), "bar")), shorthand("bar")],
        )
    );
}

#[test]
fn tpl_call_hole() {
    let v = TransformVisitor;
    let e = tagged(id("t"), tpl(vec!["Refresh ", ""], vec![call(id("expr"), vec![])]));
    let out = v.fold_expr(&e);
    assert_eq!(
        out,
        i18n_call(id("i18n"), "Refresh {0}", vec![kv("0", call(id("expr"), vec![]))])
    );
}

#[test]
fn custom_i18n_passed() {
    let v = TransformVisitor;
    let tag = call(id("t"), vec![id("custom_i18n")]);
    let e = tagged(tag, tpl(vec!["Refresh ", " inbox ", ""], vec![id("foo"), id("bar")]));
    let out = v.fold_expr(&e);
    assert_eq!(
        out,
        i18n_call(
            id("custom_i18n"),
            "Refresh {foo} inbox {bar}",
            vec![shorthand("foo"), shorthand("bar")],
        )
    );
}

#[test]
fn icu_plural() {
    let v = TransformVisitor;
    let choices = Expr::Object(vec![kv("one", strlit("# Book")), kv("other", strlit("# Books"))]);
    let e = call(id("plural"), vec![id("count"), choices]);
    let out = v.fold_expr(&e);
    assert_eq!(
        out,
        i18n_call(
            id("i18n"),
            "{count, plural, one {# Book} other {# Books}}",
            vec![shorthand("count")],
        )
    );
}

#[test]
fn icu_select() {
    let v = TransformVisitor;
    let choices = Expr::Object(vec![
        kv("male", strlit("he")),
        kv("female", strlit("she")),
        kv("other", strlit("they")),
    ]);
    let e = call(id("select"), vec![id("gender"), choices]);
    let out = v.fold_expr(&e);
    assert_eq!(
        out,
        i18n_call(
            id("i18n"),
            "{gender, select, male {he} female {she} other {they}}",
            vec![shorthand("gender")],
        )
    );
}

#[test]
fn icu_select_ordinal() {
    let v = TransformVisitor;
    let choices = Expr::Object(vec![
        kv("one", strlit("#st")),
        kv("two", strlit("#nd")),
        kv("few", strlit("#rd")),
        kv("other", strlit("#th")),
    ]);
    let e = call(id("selectOrdinal"), vec![id("count"), choices]);
    let out = v.fold_expr(&e);
    assert_eq!(
        out,
        i18n_call(
            id("i18n"),
            "{count, selectOrdinal, one {#st} two {#nd} few {#rd} other {#th}}",
            vec![shorthand("count")],
        )
    );
}

/// Case bodies may be templates; their values are appended after the
/// selector, in order, with no deduplication: `name` appears once per case
/// that uses it.
#[test]
fn plural_with_placeholders() {
    let v = TransformVisitor;
    let choices = Expr::Object(vec![
        kv("one", Expr::Tpl(tpl(vec!["", " has # friend"], vec![id("name")]))),
        kv("other", Expr::Tpl(tpl(vec!["", " has # friends"], vec![id("name")]))),
    ]);
    let e = call(id("plural"), vec![id("count"), choices]);
    let out = v.fold_expr(&e);
    assert_eq!(
        out,
        i18n_call(
            id("i18n"),
            "{count, plural, one {{name} has # friend} other {{name} has # friends}}",
            vec![shorthand("count"), shorthand("name"), shorthand("name")],
        )
    );
}

#[test]
fn positional_selector() {
    let v = TransformVisitor;
    let choices = Expr::Object(vec![kv("other", strlit("# Books"))]);
    let e = call(id("plural"), vec![member(id("obj"), "count"), choices]);
    let out = v.fold_expr(&e);
    assert_eq!(
        out,
        i18n_call(
            id("i18n"),
            "{0, plural, other {# Books}}",
            vec![kv("0", member(id("obj"), "count"))],
        )
    );
}

#[test]
fn should_not_touch_not_related_tagget_tpls() {
    let v = TransformVisitor;
    let e1 = tagged(id("b"), tpl(vec!["Refresh inbox"], vec![]));
    assert_eq!(v.fold_expr(&e1), e1);
    let e2 = tagged(call(id("b"), vec![id("i18n")]), tpl(vec!["Refresh inbox"], vec![]));
    assert_eq!(v.fold_expr(&e2), e2);
}

#[test]
fn should_not_touch_non_lungui_fns() {
    let v = TransformVisitor;
    let choices = Expr::Object(vec![kv("one", strlit("# Book")), kv("other", strlit("# Books"))]);
    let e = call(id("customName"), vec![id("count"), choices]);
    assert_eq!(v.fold_expr(&e), e);
}

#[test]
fn arity_mismatch_left_untouched() {
    let v = TransformVisitor;
    let e1 = call(id("plural"), vec![id("count")]);
    assert_eq!(v.fold_expr(&e1), e1);
    let e3 = call(id("plural"), vec![id("count"), Expr::Object(vec![]), id("extra")]);
    assert_eq!(v.fold_expr(&e3), e3);
}

#[test]
fn non_object_choices_left_untouched() {
    let v = TransformVisitor;
    let e = call(id("plural"), vec![id("count"), id("choices")]);
    assert_eq!(v.fold_expr(&e), e);
}

#[test]
fn zero_argument_tag_call_left_untouched() {
    let v = TransformVisitor;
    let e = tagged(call(id("t"), vec![]), tpl(vec!["Refresh inbox"], vec![]));
    assert_eq!(v.fold_expr(&e), e);
}

/// Properties that are not an identifier-keyed string literal or template —
/// shorthand, opaque (spread or computed), or another value shape — are
/// skipped, and contribute neither a fragment nor values.
#[test]
fn unsupported_choice_shapes_skipped() {
    let v = TransformVisitor;
    let choices = Expr::Object(vec![
        kv("one", strlit("# Book")),
        kv("two", id("someIdent")),
        shorthand("other"),
        Prop::Other(7),
    ]);
    let e = call(id("plural"), vec![id("count"), choices]);
    let out = v.fold_expr(&e);
    assert_eq!(
        out,
        i18n_call(id("i18n"), "{count, plural, one {# Book}}", vec![shorthand("count")])
    );
}

#[test]
fn empty_choices_object() {
    let v = TransformVisitor;
    let e = call(id("plural"), vec![id("count"), Expr::Object(vec![])]);
    let out = v.fold_expr(&e);
    assert_eq!(out, i18n_call(id("i18n"), "{count, plural, }", vec![shorthand("count")]));
}

#[test]
fn nested_macro_in_call_args_found() {
    let v = TransformVisitor;
    let inner = tagged(id("t"), tpl(vec!["hi"], vec![]));
    let e = call(id("someFn"), vec![inner]);
    let out = v.fold_expr(&e);
    assert_eq!(out, call(id("someFn"), vec![i18n_call(id("i18n"), "hi", vec![])]));
}

#[test]
fn nested_macro_in_object_value_found() {
    let v = TransformVisitor;
    let inner = tagged(id("t"), tpl(vec!["hi"], vec![]));
    let e = Expr::Object(vec![kv("a", inner), shorthand("b")]);
    let out = v.fold_expr(&e);
    assert_eq!(
        out,
        Expr::Object(vec![kv("a", i18n_call(id("i18n"), "hi", vec![])), shorthand("b")])
    );
}

/// Descent stops at a matched node: a macro use sitting in a hole of a
/// matched template is carried into the values untouched.
#[test]
fn matched_template_holes_not_revisited() {
    let v = TransformVisitor;
    let inner = tagged(id("t"), tpl(vec!["inner"], vec![]));
    let e = tagged(id("t"), tpl(vec!["A ", " B"], vec![inner.deep_clone()]));
    let out = v.fold_expr(&e);
    assert_eq!(out, i18n_call(id("i18n"), "A {0} B", vec![kv("0", inner)]));
}

/// A non-matching tag does not stop descent: holes of its template are
/// still visited.
#[test]
fn non_matching_tag_template_holes_visited() {
    let v = TransformVisitor;
    let inner = tagged(id("t"), tpl(vec!["x"], vec![]));
    let e = tagged(id("b"), tpl(vec!["A ", ""], vec![inner]));
    let out = v.fold_expr(&e);
    assert_eq!(
        out,
        tagged(id("b"), tpl(vec!["A ", ""], vec![i18n_call(id("i18n"), "x", vec![])]))
    );
}

/// A tag call needs exactly one argument to match; with two the whole
/// tagged template is left untouched.
#[test]
fn two_argument_tag_call_left_untouched() {
    let v = TransformVisitor;
    let e = tagged(call(id("t"), vec![id("a"), id("b")]), tpl(vec!["Refresh inbox"], vec![]));
    assert_eq!(v.fold_expr(&e), e);
}

/// Literal and template cases mix: fragments keep source order and only the
/// template case contributes values.
#[test]
fn mixed_literal_and_template_choices() {
    let v = TransformVisitor;
    let choices = Expr::Object(vec![
        kv("one", Expr::Tpl(tpl(vec!["", " has # friend"], vec![id("name")]))),
        kv("other", strlit("# friends")),
    ]);
    let e = call(id("plural"), vec![id("count"), choices]);
    let out = v.fold_expr(&e);
    assert_eq!(
        out,
        i18n_call(
            id("i18n"),
            "{count, plural, one {{name} has # friend} other {# friends}}",
            vec![shorthand("count"), shorthand("name")],
        )
    );
}

#[test]
fn opaque_nodes_pass_through() {
    let v = TransformVisitor;
    let e = Expr::Other(42);
    assert_eq!(v.fold_expr(&e), e);
    let e2 = call(id("f"), vec![Expr::Other(3), id("x")]);
    assert_eq!(v.fold_expr(&e2), e2);
}

#[test]
fn builder_template_message_and_values() {
    let v = TransformVisitor;
    let t = tpl(vec!["Hello ", "!"], vec![id("username")]);
    let (message, values) = v.transform_tpl_to_msg_and_values(&t);
    assert_eq!(message, "Hello {username}!");
    assert_eq!(values, vec![shorthand("username")]);
}

#[test]
fn builder_duplicate_identifier_not_merged() {
    let v = TransformVisitor;
    let t = tpl(vec!["", " and ", ""], vec![id("x"), id("x")]);
    let (message, values) = v.transform_tpl_to_msg_and_values(&t);
    assert_eq!(message, "{x} and {x}");
    assert_eq!(values, vec![shorthand("x"), shorthand("x")]);
}

#[test]
fn builder_icu_from_choices() {
    let v = TransformVisitor;
    let props = vec![kv("one", strlit("# Book")), kv("other", strlit("# Books"))];
    let (message, values) = v.get_icu_from_choices_obj(&props, "count", "plural");
    assert_eq!(message, "{count, plural, one {# Book} other {# Books}}");
    assert_eq!(values, vec![]);
}

#[test]
fn resolver_named_and_positional() {
    let v = TransformVisitor;
    let r = v.get_value_with_placeholder(id("foo"), 3);
    assert_eq!(r.placeholder, "foo");
    assert!(r.value.is_none());

    let r = v.get_value_with_placeholder(member(id("a"), "b"), 3);
    assert_eq!(r.placeholder, "3");
    assert_eq!(r.value, Some(member(id("a"), "b")));
}

#[test]
fn value_with_placeholder_to_prop() {
    let named = ValueWithPlaceholder { placeholder: "foo".to_string(), value: None };
    assert_eq!(named.to_prop(), shorthand("foo"));
    let positional = ValueWithPlaceholder { placeholder: "0".to_string(), value: Some(id("x")) };
    assert_eq!(positional.to_prop(), kv("0", id("x")));
}

#[test]
fn lingui_fn_names() {
    assert!(isLinguiFn("plural"));
    assert!(isLinguiFn("select"));
    assert!(isLinguiFn("selectOrdinal"));
    assert!(!isLinguiFn("t"));
    assert!(!isLinguiFn("customName"));
    assert!(!isLinguiFn(""));
}

#[test]
fn callee_name_matching() {
    assert!(matchCalleeName(&id("t"), "t"));
    assert!(!matchCalleeName(&id("b"), "t"));
    assert!(!matchCalleeName(&member(id("a"), "t"), "t"));
}

#[test]
fn decimal_rendering() {
    assert_eq!(usize_to_string(0), "0");
    assert_eq!(usize_to_string(9), "9");
    assert_eq!(usize_to_string(10), "10");
    assert_eq!(usize_to_string(42), "42");
    assert_eq!(usize_to_string(120), "120");
    assert_eq!(usize_to_string(98765), "98765");
}

#[test]
fn str_equality() {
    assert!(str_eq("", ""));
    assert!(str_eq("abc", "abc"));
    assert!(!str_eq("abc", "abd"));
    assert!(!str_eq("abc", "abcd"));
}

#[test]
fn wf_checks() {
    assert!(check_template_wf(&tpl(vec!["a"], vec![])));
    assert!(check_template_wf(&tpl(vec!["a", "b"], vec![id("x")])));
    assert!(!check_template_wf(&Template { chunks: vec![], holes: vec![] }));
    assert!(!check_template_wf(&tpl(vec!["a"], vec![id("x")])));

    let good = tagged(id("t"), tpl(vec!["A ", " B"], vec![id("x")]));
    assert!(check_expr_wf(&good));
    let bad = call(id("f"), vec![Expr::Tpl(Template { chunks: vec![], holes: vec![] })]);
    assert!(!check_expr_wf(&bad));
}
