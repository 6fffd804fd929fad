use photosort::context::{Context, Provider, ProviderError};
use photosort::template::{ParseError, RenderError, Template};

#[test]
fn template_string_without_variable() {
    let tpl = Template::parse_str("abcdef").unwrap();
    assert_eq!(tpl.token_count(), 1);

    let str = tpl.render(&Context::default()).unwrap();
    assert_eq!(str, "abcdef");
    let str = tpl.render(&Context::default()).unwrap();
    assert_eq!(str, "abcdef");

    let mut ctx = Context::default();
    let unused_var = "Hello world".to_owned();
    ctx.insert(&["k"], Provider::Fixed(unused_var));
    let str = tpl.render(&ctx).unwrap();
    assert_eq!(str, "abcdef");
}

#[test]
fn template_empty_string() {
    let tpl = Template::parse_str("").unwrap();
    assert_eq!(tpl.token_count(), 0);

    let str = tpl.render(&Context::default()).unwrap();
    assert_eq!(str, "");
    let str = tpl.render(&Context::default()).unwrap();
    assert_eq!(str, "");
}

#[test]
fn template_string() {
    let tpl = Template::parse_str(":date.day:/constant_prefix:date.month:/:date.year:").unwrap();
    assert_eq!(tpl.token_count(), 5);

    let mut ctx = Context::default();
    ctx.insert(&["date.year"], Provider::Fixed("2022".to_owned()));
    ctx.insert(&["date.month"], Provider::Fixed("08".to_owned()));
    ctx.insert(&["date.day"], Provider::Fixed("19".to_owned()));

    let str = tpl.render(&ctx).unwrap();
    assert_eq!(str, "19/constant_prefix08/2022");

    let str = tpl.render(&ctx).unwrap();
    assert_eq!(str, "19/constant_prefix08/2022");
}

#[test]
fn template_string_with_unclosed_variable_error() {
    let tpl = Template::parse_str(":date.day");
    assert!(matches!(tpl.unwrap_err(), ParseError::UnclosedVariable(_)));
}

#[test]
fn template_string_with_unnamed_variable_error() {
    let tpl = Template::parse_str("i'm going to :: next year");
    assert!(matches!(tpl.unwrap_err(), ParseError::UnamedVariable(_)));
}

#[test]
fn template_undefined_variable_error() {
    let tpl = Template::parse_str("i'm going to :destination: next year").unwrap();
    let result = tpl.render(&Context::default());

    assert_eq!(
        result.unwrap_err(),
        RenderError::UndefinedVariable("destination".to_string())
    );
}

#[test]
fn mod_string_without_variable() {
    let tpl = Template::parse_str("abcdef").unwrap();
    assert_eq!(tpl.token_count(), 1);

    let str = tpl.render(&Context::default()).unwrap();
    assert_eq!(str, "abcdef");
    let str = tpl.render(&Context::default()).unwrap();
    assert_eq!(str, "abcdef");

    let mut ctx = Context::default();
    let unused_var = "Hello world".to_owned();
    ctx.insert(&["k"], Provider::Fixed(unused_var));
    let str = tpl.render(&ctx).unwrap();
    assert_eq!(str, "abcdef");
}

#[test]
fn mod_empty_string() {
    let tpl = Template::parse_str("").unwrap();
    assert_eq!(tpl.token_count(), 0);

    let str = tpl.render(&Context::default()).unwrap();
    assert_eq!(str, "");
    let str = tpl.render(&Context::default()).unwrap();
    assert_eq!(str, "");
}

#[test]
fn mod_string() {
    let tpl = Template::parse_str(":date.day:/constant_prefix:date.month:/:date.year:").unwrap();
    assert_eq!(tpl.token_count(), 5);

    let mut ctx = Context::default();
    ctx.insert(&["date.year"], Provider::Fixed("2022".to_owned()));
    ctx.insert(&["date.month"], Provider::Fixed("08".to_owned()));
    ctx.insert(&["date.day"], Provider::Fixed("19".to_owned()));

    let str = tpl.render(&ctx).unwrap();
    assert_eq!(str, "19/constant_prefix08/2022");

    let str = tpl.render(&ctx).unwrap();
    assert_eq!(str, "19/constant_prefix08/2022");
}

#[test]
fn mod_string_with_unclosed_variable_error() {
    let tpl = Template::parse_str(":date.day");
    assert_eq!(tpl.unwrap_err(), ParseError::UnclosedVariable(8));
}

#[test]
fn mod_string_with_unnamed_variable_error() {
    let tpl = Template::parse_str("i'm going to :: next year");
    assert_eq!(tpl.unwrap_err(), ParseError::UnamedVariable(14));
}

#[test]
fn mod_undefined_variable_error() {
    let tpl = Template::parse_str("i'm going to :destination: next year").unwrap();
    let result = tpl.render(&Context::default());
    let render_err = result.unwrap_err();

    match render_err {
        RenderError::UndefinedVariable(variable) => {
            assert_eq!(variable, "destination".to_string())
        }
        _ => panic!(
            "expected error of type UndefinedVariable, got {:?}",
            render_err
        ),
    }
}

#[test]
fn variable_render_error() {
    let tpl = Template::parse_str("a :simple.variable: !").unwrap();
    let mut ctx = Context::default();
    ctx.insert(&["simple.variable"], Provider::Metadata(None));

    let result = tpl.render(&ctx);
    let render_err = result.unwrap_err();

    match render_err {
        RenderError::VariableRender(variable, error) => {
            assert_eq!("simple.variable", variable);
            assert_eq!(
                error,
                ProviderError::UnknownVariable("simple.variable".to_owned())
            );
        }
        _ => panic!("expected error of type VariableRender, got {:?}", render_err),
    }
}

#[test]
fn parse_empty_template_has_no_tokens() {
    let tpl = Template::parse_str("").unwrap();
    assert_eq!(tpl.token_count(), 0);
    assert_eq!(tpl.render(&Context::default()).unwrap(), "");
}

#[test]
fn parse_variable_pair_round_trip() {
    let tpl = Template::parse_str(":x:/:y:").unwrap();
    assert_eq!(tpl.token_count(), 3);

    let mut ctx = Context::default();
    ctx.insert(&["x"], Provider::Fixed("1".to_owned()));
    ctx.insert(&["y"], Provider::Fixed("2".to_owned()));
    assert_eq!(tpl.render(&ctx).unwrap(), "1/2");
}

#[test]
fn parse_single_colon_pair_is_unclosed() {
    assert_eq!(
        Template::parse_str("a:b").unwrap_err(),
        ParseError::UnclosedVariable(2)
    );
}

#[test]
fn parse_double_colon_is_unnamed() {
    assert_eq!(
        Template::parse_str("a::b").unwrap_err(),
        ParseError::UnamedVariable(2)
    );
}

#[test]
fn render_is_stable_across_calls() {
    let tpl = Template::parse_str("pre-:v:-post").unwrap();
    let mut ctx = Context::default();
    ctx.insert(&["v"], Provider::Fixed("stable".to_owned()));
    let first = tpl.render(&ctx).unwrap();
    let second = tpl.render(&ctx).unwrap();
    assert_eq!(first, second);
    assert_eq!(first, "pre-stable-post");
}
