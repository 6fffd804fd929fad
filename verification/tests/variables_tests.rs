use photosort::context::{
    missing_variable, Context, DateParts, ExifTemplateValue, Provider, ProviderError,
};
use photosort::replicator::{ReplicatorKind, ReplicatorWithFallback};
use photosort::sort::{Config, SortResult, SortStep, Sorter};
use photosort::template::{RenderError, Template};
use photosort::value_parser::TemplateParser;
use photosort::variables::{prepare_template_context, ProviderData};

fn prepared(path: &str, data: &ProviderData) -> Context {
    let mut ctx = Context::new();
    prepare_template_context(&mut ctx, path, data);
    ctx
}

fn no_data() -> ProviderData {
    ProviderData {
        creation_date: None,
        exif: None,
    }
}

#[test]
fn file_identity_variables_render() {
    let ctx = prepared("/photos/trip/beach-shot.jpeg", &no_data());
    let tpl = Template::parse_str(":file.name:|:file.stem:|:file.extension:").unwrap();
    assert_eq!(tpl.render(&ctx).unwrap(), "beach-shot.jpeg|beach-shot|jpeg");
}

#[test]
fn file_path_variable_renders_the_seeded_path() {
    let ctx = prepared("/photos/trip/beach-shot.jpeg", &no_data());
    let tpl = Template::parse_str(":file.path:").unwrap();
    assert_eq!(tpl.render(&ctx).unwrap(), "/photos/trip/beach-shot.jpeg");
}

#[test]
fn name_without_extension_renders_empty_extension() {
    let ctx = prepared("/photos/README", &no_data());
    let tpl = Template::parse_str("[:file.extension:]").unwrap();
    assert_eq!(tpl.render(&ctx).unwrap(), "[]");
}

#[test]
fn leading_dot_name_has_no_extension() {
    let ctx = prepared("/home/user/.config", &no_data());
    let tpl = Template::parse_str(":file.stem:|:file.extension:").unwrap();
    assert_eq!(tpl.render(&ctx).unwrap(), ".config|");
}

#[test]
fn filename_date_variables_render() {
    let ctx = prepared("/in/picture-2022-11-01-0000.jpg", &no_data());
    let tpl = Template::parse_str(
        ":file.name.date:|:file.name.date.year:|:file.name.date.month:|:file.name.date.day:",
    )
    .unwrap();
    assert_eq!(tpl.render(&ctx).unwrap(), "2022-11-01|2022|11|01");
}

#[test]
fn filename_date_absent_fails_classified() {
    let ctx = prepared("/in/holiday.jpg", &no_data());
    let tpl = Template::parse_str(":file.name.date:").unwrap();
    match tpl.render(&ctx).unwrap_err() {
        RenderError::VariableRender(name, err) => {
            assert_eq!(name, "file.name.date");
            assert_eq!(err, ProviderError::DateNotFound);
        }
        other => panic!("expected VariableRender, got {:?}", other),
    }
}

#[test]
fn filename_date_invalid_fails_classified() {
    let ctx = prepared("/in/img-2022-02-31.jpg", &no_data());
    let tpl = Template::parse_str(":file.name.date:").unwrap();
    match tpl.render(&ctx).unwrap_err() {
        RenderError::VariableRender(name, err) => {
            assert_eq!(name, "file.name.date");
            assert_eq!(err, ProviderError::InvalidDate);
        }
        other => panic!("expected VariableRender, got {:?}", other),
    }
}

#[test]
fn metadata_creation_date_renders_padded() {
    let data = ProviderData {
        creation_date: Some(DateParts {
            year: 987,
            month: 6,
            day: 5,
        }),
        exif: None,
    };
    let ctx = prepared("/in/a.jpg", &data);
    let tpl = Template::parse_str(
        ":file.md.creation_date:|:file.md.creation_date.year:|:file.md.creation_date.month:|:file.md.creation_date.day:",
    )
    .unwrap();
    assert_eq!(tpl.render(&ctx).unwrap(), "0987-06-05|0987|06|05");
}

#[test]
fn metadata_unavailable_fails_classified() {
    let ctx = prepared("/in/a.jpg", &no_data());
    let tpl = Template::parse_str(":file.md.creation_date:").unwrap();
    match tpl.render(&ctx).unwrap_err() {
        RenderError::VariableRender(name, err) => {
            assert_eq!(name, "file.md.creation_date");
            assert_eq!(err, ProviderError::MetadataUnavailable);
        }
        other => panic!("expected VariableRender, got {:?}", other),
    }
}

#[test]
fn exif_date_renders_when_present() {
    let data = ProviderData {
        creation_date: None,
        exif: Some(ExifTemplateValue::new(Some(DateParts {
            year: 2022,
            month: 8,
            day: 19,
        }))),
    };
    let ctx = prepared("/in/a.jpg", &data);
    let tpl = Template::parse_str(":exif.date:|:exif.date.year:").unwrap();
    assert_eq!(tpl.render(&ctx).unwrap(), "2022-08-19|2022");
}

#[test]
fn exif_missing_field_is_a_hard_error() {
    // The container is present but holds no date field: the per-field
    // error is raised, it does not soft-miss to an empty value.
    let data = ProviderData {
        creation_date: None,
        exif: Some(ExifTemplateValue::new(None)),
    };
    let ctx = prepared("/in/a.jpg", &data);
    let tpl = Template::parse_str(":exif.date:").unwrap();
    match tpl.render(&ctx).unwrap_err() {
        RenderError::VariableRender(name, err) => {
            assert_eq!(name, "exif.date");
            assert_eq!(err, ProviderError::ExifFieldMissing("DateTime".to_owned()));
        }
        other => panic!("expected VariableRender, got {:?}", other),
    }
}

#[test]
fn exif_absent_container_leaves_names_unregistered() {
    let ctx = prepared("/in/a.jpg", &no_data());
    let tpl = Template::parse_str(":exif.date:").unwrap();
    assert_eq!(
        tpl.render(&ctx).unwrap_err(),
        RenderError::UndefinedVariable("exif.date".to_owned())
    );
}

#[test]
fn composite_date_prefers_exif() {
    let data = ProviderData {
        creation_date: Some(DateParts {
            year: 2001,
            month: 1,
            day: 1,
        }),
        exif: Some(ExifTemplateValue::new(Some(DateParts {
            year: 2022,
            month: 8,
            day: 19,
        }))),
    };
    let ctx = prepared("/in/a.jpg", &data);
    let tpl = Template::parse_str(":date:").unwrap();
    assert_eq!(tpl.render(&ctx).unwrap(), "2022-08-19");
}

#[test]
fn composite_date_falls_back_to_metadata() {
    let data = ProviderData {
        creation_date: Some(DateParts {
            year: 2001,
            month: 1,
            day: 1,
        }),
        exif: Some(ExifTemplateValue::new(None)),
    };
    let ctx = prepared("/in/a.jpg", &data);
    let tpl = Template::parse_str(":date.year:").unwrap();
    assert_eq!(tpl.render(&ctx).unwrap(), "2001");
}

#[test]
fn composite_date_names_every_failed_candidate() {
    let ctx = prepared("/in/a.jpg", &no_data());
    let tpl = Template::parse_str(":date:").unwrap();
    match tpl.render(&ctx).unwrap_err() {
        RenderError::VariableRender(name, err) => {
            assert_eq!(name, "date");
            assert_eq!(
                err,
                ProviderError::AllCandidatesFailed(vec![
                    "exif.date".to_owned(),
                    "file.md.creation_date".to_owned()
                ])
            );
        }
        other => panic!("expected VariableRender, got {:?}", other),
    }
}

#[test]
fn context_lookup_prefers_the_last_binding() {
    let mut ctx = Context::new();
    ctx.insert(&["v"], Provider::Fixed("first".to_owned()));
    ctx.insert(&["v"], Provider::Fixed("second".to_owned()));
    let tpl = Template::parse_str(":v:").unwrap();
    assert_eq!(tpl.render(&ctx).unwrap(), "second");
}

#[test]
fn context_get_or_err_names_the_missing_variable() {
    let ctx = Context::new();
    match ctx.get_or_err("nowhere") {
        Err(e) => assert_eq!(e, missing_variable("nowhere".to_owned())),
        Ok(_) => panic!("expected a missing-variable error"),
    }
    assert!(ctx.get("nowhere").is_none());
}

#[test]
fn exif_template_value_reports_its_datetime() {
    let parts = DateParts {
        year: 2020,
        month: 12,
        day: 31,
    };
    let value = ExifTemplateValue::new(Some(parts));
    assert_eq!(value.datetime().unwrap(), parts);
    assert_eq!(value.date().unwrap(), "2020-12-31");
    assert_eq!(value.date_year().unwrap(), "2020");
    assert_eq!(value.date_month().unwrap(), "12");
    assert_eq!(value.date_day().unwrap(), "31");

    let empty = ExifTemplateValue::new(None);
    assert!(empty.datetime().is_err());
}

#[test]
fn template_parser_parses_arguments() {
    let parser = TemplateParser::default();
    let tpl = parser.parse("/sorted/:file.name:").unwrap();
    assert_eq!(tpl.token_count(), 2);
    assert!(parser.parse(":broken").is_err());
}

#[test]
fn prepared_context_drives_a_full_sort() {
    let data = ProviderData {
        creation_date: Some(DateParts {
            year: 2022,
            month: 11,
            day: 1,
        }),
        exif: None,
    };
    let ctx = prepared("/in/picture-2022-11-01-0000.jpg", &data);
    let sorter = Sorter::new(Config::new(
        Template::parse_str("/out/:date.year:/:file.name:").unwrap(),
        ReplicatorWithFallback::from_kinds(vec![ReplicatorKind::Copy]),
        false,
    ));
    match sorter.sort_file_with_context("/in/picture-2022-11-01-0000.jpg", &ctx) {
        SortStep::Pending(run) => {
            // the rendered destination is carried into the pending run
            let step = run.step(photosort::sort::FsOutcome::Exists(true));
            match step {
                SortStep::Done(Ok(SortResult::Skipped { replicate_path, .. })) => {
                    assert_eq!(replicate_path, "/out/2022/picture-2022-11-01-0000.jpg");
                }
                other => panic!("expected a skipped run, got {:?}", other),
            }
        }
        other => panic!("expected a pending run, got {:?}", other),
    }
}
