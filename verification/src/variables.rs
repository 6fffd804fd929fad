//! Rendering of the built-in provider families, and preparation of a
//! context with every family registered:
//!
//! - file identity: path, name, stem, extension, and the date found in the
//!   file name;
//! - filesystem metadata: the creation date and its facets;
//! - embedded metadata: the capture date and its facets;
//! - the composite date: the first of the embedded and the filesystem date
//!   that resolves.

use vstd::prelude::*;

use crate::context::{
    lookup, spec_date_display, Context, ContextModel, DateParts, ExifTemplateValue, Provider,
    ProviderError, ProviderErrorModel, ProviderModel, missing_variable, format_date_parts,
};
use crate::datescan::{scan_filename_date, spec_scan, DateMatch, FileNameDateError, ScanModel};
use crate::pathname::{
    extension_of, file_name_of, file_stem_of, spec_ext_of_name, spec_file_name, spec_stem_of_name,
};
use crate::strings::{spec_padded, str_eq, u32_padded};

verus! {

/// The result of rendering one variable, over character sequences.
pub open spec fn render_result_model(r: Result<String, ProviderError>) -> Result<
    Seq<char>,
    ProviderErrorModel,
> {
    match r {
        Ok(s) => Ok(s@),
        Err(e) => Err(e.model()),
    }
}

/// How a date found in a file name renders: the matched digit groups,
/// joined with dashes.
pub open spec fn spec_match_display(m: DateMatch) -> Seq<char> {
    m.year + seq!['-'] + m.month + seq!['-'] + m.day
}

/// The date found in the file name of `path`: the whole `YYYY-MM-DD`
/// form for facet 0, else the year, month or day group alone.
pub open spec fn spec_filename_date(path: Seq<char>, facet: int) -> Result<
    Seq<char>,
    ProviderErrorModel,
> {
    match spec_scan(spec_file_name(path)) {
        ScanModel::NoDate => Err(ProviderErrorModel::DateNotFound),
        ScanModel::BadDate => Err(ProviderErrorModel::InvalidDate),
        ScanModel::Found(m) => Ok(
            if facet == 1 {
                m.year
            } else if facet == 2 {
                m.month
            } else if facet == 3 {
                m.day
            } else {
                spec_match_display(m)
            },
        ),
    }
}

/// What the file-identity provider renders under each of its names.
pub open spec fn spec_file_identity(path: Seq<char>, name: Seq<char>) -> Result<
    Seq<char>,
    ProviderErrorModel,
> {
    if name == "file.path"@ {
        Ok(path)
    } else if name == "file.name"@ {
        Ok(spec_file_name(path))
    } else if name == "file.stem"@ {
        Ok(spec_stem_of_name(spec_file_name(path)))
    } else if name == "file.extension"@ {
        Ok(
            match spec_ext_of_name(spec_file_name(path)) {
                Some(e) => e,
                None => Seq::<char>::empty(),
            },
        )
    } else if name == "file.name.date"@ {
        spec_filename_date(path, 0)
    } else if name == "file.name.date.year"@ {
        spec_filename_date(path, 1)
    } else if name == "file.name.date.month"@ {
        spec_filename_date(path, 2)
    } else if name == "file.name.date.day"@ {
        spec_filename_date(path, 3)
    } else {
        Err(ProviderErrorModel::UnknownVariable(name))
    }
}

/// What the filesystem-metadata provider renders under each of its names.
pub open spec fn spec_metadata_facet(d: Option<DateParts>, name: Seq<char>) -> Result<
    Seq<char>,
    ProviderErrorModel,
> {
    if name == "file.md.creation_date"@ || name == "file.md.creation_date.year"@ || name
        == "file.md.creation_date.month"@ || name == "file.md.creation_date.day"@ {
        match d {
            None => Err(ProviderErrorModel::MetadataUnavailable),
            Some(d) => Ok(
                if name == "file.md.creation_date"@ {
                    spec_date_display(d)
                } else if name == "file.md.creation_date.year"@ {
                    spec_padded(d.year as nat, 4)
                } else if name == "file.md.creation_date.month"@ {
                    spec_padded(d.month as nat, 2)
                } else {
                    spec_padded(d.day as nat, 2)
                },
            ),
        }
    } else {
        Err(ProviderErrorModel::UnknownVariable(name))
    }
}

/// What the embedded-metadata provider renders under each of its names.
pub open spec fn spec_exif_facet(d: Option<DateParts>, name: Seq<char>) -> Result<
    Seq<char>,
    ProviderErrorModel,
> {
    if name == "exif.date"@ || name == "exif.date.year"@ || name == "exif.date.month"@ || name
        == "exif.date.day"@ {
        match d {
            None => Err(ProviderErrorModel::ExifFieldMissing("DateTime"@)),
            Some(d) => Ok(
                if name == "exif.date"@ {
                    spec_date_display(d)
                } else if name == "exif.date.year"@ {
                    spec_padded(d.year as nat, 4)
                } else if name == "exif.date.month"@ {
                    spec_padded(d.month as nat, 2)
                } else {
                    spec_padded(d.day as nat, 2)
                },
            ),
        }
    } else {
        Err(ProviderErrorModel::UnknownVariable(name))
    }
}

/// What every provider but the composite renders. The composite resolves
/// its candidates through this function, so a composite registered as a
/// candidate of itself does not recurse: as a candidate it fails.
pub open spec fn spec_render_basic(m: ContextModel, p: ProviderModel, name: Seq<char>) -> Result<
    Seq<char>,
    ProviderErrorModel,
> {
    match p {
        ProviderModel::Fixed(v) => Ok(v),
        ProviderModel::FileIdentity => match lookup(m, ":file.path"@) {
            Some(ProviderModel::Fixed(path)) => spec_file_identity(path, name),
            _ => Err(ProviderErrorModel::MissingVariable(":file.path"@)),
        },
        ProviderModel::Metadata(d) => spec_metadata_facet(d, name),
        ProviderModel::Exif(d) => spec_exif_facet(d, name),
        ProviderModel::CompositeDate => Err(ProviderErrorModel::UnknownVariable(name)),
    }
}

/// The first candidate that is registered and renders, in order.
pub open spec fn spec_try_candidates(m: ContextModel, keys: Seq<Seq<char>>) -> Option<Seq<char>>
    decreases keys.len(),
{
    if keys.len() == 0 {
        None
    } else {
        match lookup(m, keys[0]) {
            Some(p) => match spec_render_basic(m, p, keys[0]) {
                Ok(v) => Some(v),
                Err(_) => spec_try_candidates(m, keys.drop_first()),
            },
            None => spec_try_candidates(m, keys.drop_first()),
        }
    }
}

/// A composite variable: the first candidate that resolves, or an error
/// naming every candidate tried.
pub open spec fn spec_composite(m: ContextModel, keys: Seq<Seq<char>>) -> Result<
    Seq<char>,
    ProviderErrorModel,
> {
    match spec_try_candidates(m, keys) {
        Some(v) => Ok(v),
        None => Err(ProviderErrorModel::AllCandidatesFailed(keys)),
    }
}

/// What any provider renders under a name, in a given context.
pub open spec fn spec_render_provider(m: ContextModel, p: ProviderModel, name: Seq<char>) -> Result<
    Seq<char>,
    ProviderErrorModel,
> {
    match p {
        ProviderModel::CompositeDate => {
            if name == "date"@ {
                spec_composite(m, seq!["exif.date"@, "file.md.creation_date"@])
            } else if name == "date.year"@ {
                spec_composite(m, seq!["exif.date.year"@, "file.md.creation_date.year"@])
            } else if name == "date.month"@ {
                spec_composite(m, seq!["exif.date.month"@, "file.md.creation_date.month"@])
            } else if name == "date.day"@ {
                spec_composite(m, seq!["exif.date.day"@, "file.md.creation_date.day"@])
            } else {
                Err(ProviderErrorModel::UnknownVariable(name))
            }
        },
        _ => spec_render_basic(m, p, name),
    }
}

/// Renders the date found in a file name, selecting one facet.
fn filename_date_facet(path: &str, facet: u8) -> (r: Result<String, ProviderError>)
    requires
        facet < 4,
    ensures
        render_result_model(r) == spec_filename_date(path@, facet as int),
{
    let name: String = match file_name_of(path) {
        Some(n) => n,
        None => {
            let n = String::new();
            assert(n@ =~= spec_file_name(path@));
            n
        },
    };
    match scan_filename_date(name.as_str()) {
        Err(FileNameDateError::DateNotFound) => Err(ProviderError::DateNotFound),
        Err(FileNameDateError::InvalidDate) => Err(ProviderError::InvalidDate),
        Ok(f) => {
            if facet == 1 {
                Ok(f.year)
            } else if facet == 2 {
                Ok(f.month)
            } else if facet == 3 {
                Ok(f.day)
            } else {
                proof {
                    reveal_strlit("-");
                }
                let mut s = f.year;
                s.append("-");
                s.append(f.month.as_str());
                s.append("-");
                s.append(f.day.as_str());
                let ghost m = spec_scan(name@)->Found_0;
                assert(s@ =~= spec_match_display(m));
                Ok(s)
            }
        },
    }
}

/// Renders one file-identity variable from the seeded source path.
fn file_identity_facet(path: &str, name: &str) -> (r: Result<String, ProviderError>)
    ensures
        render_result_model(r) == spec_file_identity(path@, name@),
{
    if str_eq(name, "file.path") {
        Ok(path.to_owned())
    } else if str_eq(name, "file.name") {
        match file_name_of(path) {
            Some(n) => Ok(n),
            None => {
                let n = String::new();
                assert(n@ =~= spec_file_name(path@));
                Ok(n)
            },
        }
    } else if str_eq(name, "file.stem") {
        match file_stem_of(path) {
            Some(s) => Ok(s),
            None => {
                let s = String::new();
                assert(spec_file_name(path@).len() == 0);
                assert(s@ =~= spec_stem_of_name(spec_file_name(path@)));
                Ok(s)
            },
        }
    } else if str_eq(name, "file.extension") {
        match extension_of(path) {
            Some(e) => Ok(e),
            None => {
                let e = String::new();
                assert(e@ =~= Seq::<char>::empty());
                Ok(e)
            },
        }
    } else if str_eq(name, "file.name.date") {
        filename_date_facet(path, 0)
    } else if str_eq(name, "file.name.date.year") {
        filename_date_facet(path, 1)
    } else if str_eq(name, "file.name.date.month") {
        filename_date_facet(path, 2)
    } else if str_eq(name, "file.name.date.day") {
        filename_date_facet(path, 3)
    } else {
        Err(ProviderError::UnknownVariable(name.to_owned()))
    }
}

/// Renders one filesystem-metadata variable.
fn metadata_facet(d: &Option<DateParts>, name: &str) -> (r: Result<String, ProviderError>)
    ensures
        render_result_model(r) == spec_metadata_facet(*d, name@),
{
    let known = str_eq(name, "file.md.creation_date") || str_eq(name, "file.md.creation_date.year")
        || str_eq(name, "file.md.creation_date.month") || str_eq(
        name,
        "file.md.creation_date.day",
    );
    if !known {
        return Err(ProviderError::UnknownVariable(name.to_owned()));
    }
    match d {
        None => Err(ProviderError::MetadataUnavailable),
        Some(d) => {
            if str_eq(name, "file.md.creation_date") {
                Ok(format_date_parts(d))
            } else if str_eq(name, "file.md.creation_date.year") {
                Ok(u32_padded(d.year as u32, 4))
            } else if str_eq(name, "file.md.creation_date.month") {
                Ok(u32_padded(d.month as u32, 2))
            } else {
                Ok(u32_padded(d.day as u32, 2))
            }
        },
    }
}

/// Renders one embedded-metadata variable.
fn exif_facet(e: &ExifTemplateValue, name: &str) -> (r: Result<String, ProviderError>)
    ensures
        render_result_model(r) == spec_exif_facet(e.spec_datetime(), name@),
{
    if str_eq(name, "exif.date") {
        e.date()
    } else if str_eq(name, "exif.date.year") {
        e.date_year()
    } else if str_eq(name, "exif.date.month") {
        e.date_month()
    } else if str_eq(name, "exif.date.day") {
        e.date_day()
    } else {
        Err(ProviderError::UnknownVariable(name.to_owned()))
    }
}

/// Renders any provider but the composite.
fn render_basic(ctx: &Context, p: &Provider, name: &str) -> (r: Result<String, ProviderError>)
    requires
        ctx.wf(),
    ensures
        render_result_model(r) == spec_render_basic(ctx.model(), p.model(), name@),
{
    match p {
        Provider::Fixed(v) => Ok(v.clone()),
        Provider::FileIdentity => {
            match ctx.get(":file.path") {
                Some(Provider::Fixed(path)) => file_identity_facet(path.as_str(), name),
                _ => Err(missing_variable(":file.path".to_owned())),
            }
        },
        Provider::Metadata(d) => metadata_facet(d, name),
        Provider::Exif(e) => exif_facet(e, name),
        Provider::CompositeDate => Err(ProviderError::UnknownVariable(name.to_owned())),
    }
}

/// Tries each candidate name in order; the first that is registered and
/// renders wins; when all fail, the error names every candidate.
fn get_one_of(ctx: &Context, keys: &[&str]) -> (r: Result<String, ProviderError>)
    requires
        ctx.wf(),
    ensures
        render_result_model(r) == spec_composite(ctx.model(), keys.deep_view()),
{
    let ghost kd = keys.deep_view();
    let n = keys.len();
    assert(kd.skip(0) =~= kd);
    let mut i: usize = 0;
    while i < n
        invariant
            ctx.wf(),
            i <= n,
            n == keys@.len(),
            kd == keys.deep_view(),
            kd.len() == n,
            spec_try_candidates(ctx.model(), kd) == spec_try_candidates(
                ctx.model(),
                kd.skip(i as int),
            ),
        decreases n - i,
    {
        let key: &str = keys[i];
        assert(kd.skip(i as int)[0] == key@);
        match ctx.get(key) {
            Some(p) => {
                match render_basic(ctx, p, key) {
                    Ok(v) => {
                        return Ok(v);
                    },
                    Err(_) => {},
                }
            },
            None => {},
        }
        assert(kd.skip(i as int).drop_first() =~= kd.skip(i + 1));
        i += 1;
    }
    assert(kd.skip(n as int) =~= Seq::<Seq<char>>::empty());
    let mut names: Vec<String> = Vec::new();
    let mut j: usize = 0;
    while j < n
        invariant
            j <= n,
            n == keys@.len(),
            kd == keys.deep_view(),
            names@.len() == j,
            names.deep_view() =~= kd.take(j as int),
        decreases n - j,
    {
        let key: &str = keys[j];
        let ghost before = names.deep_view();
        names.push(key.to_owned());
        assert(names.deep_view() =~= kd.take(j + 1)) by {
            assert(kd[j as int] == key@);
            assert(names@.len() == j + 1);
            assert(names.deep_view().len() == names@.len());
            assert forall|t: int| 0 <= t < j implies names.deep_view()[t] == before[t] by {
                assert(names@[t] == names@.drop_last()[t]);
            }
            assert(names.deep_view()[j as int] == key@);
        }
        j += 1;
    }
    assert(names.deep_view() =~= kd);
    Err(ProviderError::AllCandidatesFailed(names))
}

/// Renders the provider registered under `name` in the given context.
pub fn render_provider(ctx: &Context, p: &Provider, name: &str) -> (r: Result<
    String,
    ProviderError,
>)
    requires
        ctx.wf(),
    ensures
        render_result_model(r) == spec_render_provider(ctx.model(), p.model(), name@),
{
    match p {
        Provider::CompositeDate => {
            if str_eq(name, "date") {
                let r = get_one_of(ctx, &["exif.date", "file.md.creation_date"]);
                assert((&["exif.date", "file.md.creation_date"]).deep_view() =~= seq![
                    "exif.date"@,
                    "file.md.creation_date"@,
                ]);
                r
            } else if str_eq(name, "date.year") {
                let r = get_one_of(ctx, &["exif.date.year", "file.md.creation_date.year"]);
                assert((&["exif.date.year", "file.md.creation_date.year"]).deep_view() =~= seq![
                    "exif.date.year"@,
                    "file.md.creation_date.year"@,
                ]);
                r
            } else if str_eq(name, "date.month") {
                let r = get_one_of(ctx, &["exif.date.month", "file.md.creation_date.month"]);
                assert((&["exif.date.month", "file.md.creation_date.month"]).deep_view() =~= seq![
                    "exif.date.month"@,
                    "file.md.creation_date.month"@,
                ]);
                r
            } else if str_eq(name, "date.day") {
                let r = get_one_of(ctx, &["exif.date.day", "file.md.creation_date.day"]);
                assert((&["exif.date.day", "file.md.creation_date.day"]).deep_view() =~= seq![
                    "exif.date.day"@,
                    "file.md.creation_date.day"@,
                ]);
                r
            } else {
                Err(ProviderError::UnknownVariable(name.to_owned()))
            }
        },
        _ => render_basic(ctx, p, name),
    }
}

/// What an outside collaborator gathered about the file before rendering:
/// the filesystem creation date, and the embedded metadata container's
/// capture date when a container was present at all.
#[derive(Clone, Copy, Debug)]
pub struct ProviderData {
    /// The file's creation date; `None` when metadata was unavailable.
    pub creation_date: Option<DateParts>,
    /// The embedded-metadata provider; `None` when the file holds no
    /// metadata container, so that the embedded names stay unregistered.
    pub exif: Option<ExifTemplateValue>,
}

pub open spec fn spec_bind_all(names: Seq<Seq<char>>, p: ProviderModel) -> ContextModel {
    Seq::new(names.len(), |i: int| (names[i], p))
}

pub open spec fn spec_identity_names() -> Seq<Seq<char>> {
    seq![
        "file.path"@,
        "file.name"@,
        "file.stem"@,
        "file.extension"@,
        "file.name.date"@,
        "file.name.date.year"@,
        "file.name.date.month"@,
        "file.name.date.day"@,
    ]
}

pub open spec fn spec_metadata_names() -> Seq<Seq<char>> {
    seq![
        "file.md.creation_date"@,
        "file.md.creation_date.year"@,
        "file.md.creation_date.month"@,
        "file.md.creation_date.day"@,
    ]
}

pub open spec fn spec_exif_names() -> Seq<Seq<char>> {
    seq!["exif.date"@, "exif.date.year"@, "exif.date.month"@, "exif.date.day"@]
}

pub open spec fn spec_composite_names() -> Seq<Seq<char>> {
    seq!["date"@, "date.year"@, "date.month"@, "date.day"@]
}

/// The bindings that preparing a context appends: the private canonical
/// source path first, then every provider family.
pub open spec fn spec_prepared_bindings(
    path: Seq<char>,
    creation: Option<DateParts>,
    exif: Option<Option<DateParts>>,
) -> ContextModel {
    seq![(":file.path"@, ProviderModel::Fixed(path))] + spec_bind_all(
        spec_identity_names(),
        ProviderModel::FileIdentity,
    ) + spec_bind_all(spec_metadata_names(), ProviderModel::Metadata(creation)) + (match exif {
        Some(d) => spec_bind_all(spec_exif_names(), ProviderModel::Exif(d)),
        None => Seq::<(Seq<char>, ProviderModel)>::empty(),
    }) + spec_bind_all(spec_composite_names(), ProviderModel::CompositeDate)
}

pub open spec fn spec_exif_of(data: ProviderData) -> Option<Option<DateParts>> {
    match data.exif {
        Some(e) => Some(e.spec_datetime()),
        None => None,
    }
}

/// Prepares a context for one file: seeds the private `:file.path`
/// variable with the canonical source path the caller resolved, then
/// registers every built-in provider family.
pub fn prepare_template_context(ctx: &mut Context, abs_path: &str, data: &ProviderData)
    requires
        old(ctx).wf(),
    ensures
        final(ctx).wf(),
        final(ctx).model() == old(ctx).model() + spec_prepared_bindings(
            abs_path@,
            data.creation_date,
            spec_exif_of(*data),
        ),
{
    let ghost m0 = ctx.model();
    ctx.insert(&[":file.path"], Provider::Fixed(abs_path.to_owned()));
    assert(ctx.model() =~= m0 + seq![(":file.path"@, ProviderModel::Fixed(abs_path@))]);
    let ghost m1 = ctx.model();
    ctx.insert(
        &[
            "file.path",
            "file.name",
            "file.stem",
            "file.extension",
            "file.name.date",
            "file.name.date.year",
            "file.name.date.month",
            "file.name.date.day",
        ],
        Provider::FileIdentity,
    );
    assert(ctx.model() =~= m1 + spec_bind_all(spec_identity_names(), ProviderModel::FileIdentity));
    let ghost m2 = ctx.model();
    ctx.insert(
        &[
            "file.md.creation_date",
            "file.md.creation_date.year",
            "file.md.creation_date.month",
            "file.md.creation_date.day",
        ],
        Provider::Metadata(data.creation_date),
    );
    assert(ctx.model() =~= m2 + spec_bind_all(
        spec_metadata_names(),
        ProviderModel::Metadata(data.creation_date),
    ));
    let ghost m3 = ctx.model();
    match &data.exif {
        Some(e) => {
            ctx.insert(
                &["exif.date", "exif.date.year", "exif.date.month", "exif.date.day"],
                Provider::Exif(*e),
            );
            assert(ctx.model() =~= m3 + spec_bind_all(
                spec_exif_names(),
                ProviderModel::Exif(e.spec_datetime()),
            ));
        },
        None => {},
    }
    let ghost m4 = ctx.model();
    ctx.insert(&["date", "date.year", "date.month", "date.day"], Provider::CompositeDate);
    assert(ctx.model() =~= m4 + spec_bind_all(
        spec_composite_names(),
        ProviderModel::CompositeDate,
    ));
    assert(final(ctx).model() =~= old(ctx).model() + spec_prepared_bindings(
        abs_path@,
        data.creation_date,
        spec_exif_of(*data),
    ));
}

} // verus!
