//! The per-file rendering context: a registry binding variable names to
//! providers. Multiple names may alias one provider; a lookup resolves a
//! name to the provider registered last under that name.
//!
//! Providers form a closed set. Data that only an outside collaborator can
//! produce (a file's creation date, an embedded capture date) reaches a
//! provider as plain values when the context is prepared, so that rendering
//! itself is a pure function of the context.

use vstd::prelude::*;

use crate::strings::{spec_padded, str_eq, str_vec_eq, u32_padded};

verus! {

/// A calendar date, split into its parts.
#[derive(Clone, Copy, Debug, PartialEq, Eq, Structural)]
pub struct DateParts {
    pub year: u16,
    pub month: u8,
    pub day: u8,
}

/// How a date renders: `YYYY-MM-DD`, each part zero-padded.
pub open spec fn spec_date_display(d: DateParts) -> Seq<char> {
    spec_padded(d.year as nat, 4) + seq!['-'] + spec_padded(d.month as nat, 2) + seq!['-']
        + spec_padded(d.day as nat, 2)
}

/// Renders a date as `YYYY-MM-DD`.
pub fn format_date_parts(d: &DateParts) -> (r: String)
    ensures
        r@ == spec_date_display(*d),
{
    proof {
        reveal_strlit("-");
    }
    let mut s = u32_padded(d.year as u32, 4);
    s.append("-");
    let m = u32_padded(d.month as u32, 2);
    s.append(m.as_str());
    s.append("-");
    let dd = u32_padded(d.day as u32, 2);
    s.append(dd.as_str());
    assert(s@ =~= spec_date_display(*d));
    s
}

/// An error raised by a provider, always classified.
#[derive(Debug)]
pub enum ProviderError {
    /// A variable the provider itself depends on is not registered.
    MissingVariable(String),
    /// The provider was invoked under a name it does not serve.
    UnknownVariable(String),
    /// No filesystem metadata date was available for the file.
    MetadataUnavailable,
    /// The embedded metadata container holds no such field.
    ExifFieldMissing(String),
    /// The file name holds no date shape.
    DateNotFound,
    /// The file name holds a date shape that is no real calendar date.
    InvalidDate,
    /// Every candidate of a composite variable failed; names the candidates.
    AllCandidatesFailed(Vec<String>),
}

/// The value of a `ProviderError`, over character sequences.
pub enum ProviderErrorModel {
    MissingVariable(Seq<char>),
    UnknownVariable(Seq<char>),
    MetadataUnavailable,
    ExifFieldMissing(Seq<char>),
    DateNotFound,
    InvalidDate,
    AllCandidatesFailed(Seq<Seq<char>>),
}

impl ProviderError {
    pub open spec fn model(&self) -> ProviderErrorModel {
        match self {
            ProviderError::MissingVariable(s) => ProviderErrorModel::MissingVariable(s@),
            ProviderError::UnknownVariable(s) => ProviderErrorModel::UnknownVariable(s@),
            ProviderError::MetadataUnavailable => ProviderErrorModel::MetadataUnavailable,
            ProviderError::ExifFieldMissing(s) => ProviderErrorModel::ExifFieldMissing(s@),
            ProviderError::DateNotFound => ProviderErrorModel::DateNotFound,
            ProviderError::InvalidDate => ProviderErrorModel::InvalidDate,
            ProviderError::AllCandidatesFailed(v) => ProviderErrorModel::AllCandidatesFailed(
                v.deep_view(),
            ),
        }
    }
}

impl PartialEq for ProviderError {
    fn eq(&self, other: &Self) -> (r: bool) {
        match (self, other) {
            (ProviderError::MissingVariable(a), ProviderError::MissingVariable(b)) => str_eq(
                a.as_str(),
                b.as_str(),
            ),
            (ProviderError::UnknownVariable(a), ProviderError::UnknownVariable(b)) => str_eq(
                a.as_str(),
                b.as_str(),
            ),
            (ProviderError::MetadataUnavailable, ProviderError::MetadataUnavailable) => true,
            (ProviderError::ExifFieldMissing(a), ProviderError::ExifFieldMissing(b)) => str_eq(
                a.as_str(),
                b.as_str(),
            ),
            (ProviderError::DateNotFound, ProviderError::DateNotFound) => true,
            (ProviderError::InvalidDate, ProviderError::InvalidDate) => true,
            (ProviderError::AllCandidatesFailed(a), ProviderError::AllCandidatesFailed(b)) => {
                str_vec_eq(a, b)
            },
            _ => false,
        }
    }
}

impl vstd::std_specs::cmp::PartialEqSpecImpl for ProviderError {
    open spec fn obeys_eq_spec() -> bool {
        true
    }

    open spec fn eq_spec(&self, other: &Self) -> bool {
        self.model() == other.model()
    }
}

/// The embedded-metadata provider: carries the capture date extracted from
/// the file's metadata container, when that field was present. A missing
/// field is a per-field error at rendering time.
#[derive(Clone, Copy, Debug)]
pub struct ExifTemplateValue {
    datetime: Option<DateParts>,
}

impl ExifTemplateValue {
    pub closed spec fn spec_datetime(&self) -> Option<DateParts> {
        self.datetime
    }

    pub fn new(datetime: Option<DateParts>) -> (r: Self)
        ensures
            r.spec_datetime() == datetime,
    {
        Self { datetime }
    }

    /// The capture date, or the per-field error when the container holds none.
    pub fn datetime(&self) -> (r: Result<DateParts, ProviderError>)
        ensures
            match r {
                Ok(d) => self.spec_datetime() == Some(d),
                Err(e) => self.spec_datetime() is None && e.model()
                    == ProviderErrorModel::ExifFieldMissing("DateTime"@),
            },
    {
        match self.datetime {
            Some(d) => Ok(d),
            None => Err(ProviderError::ExifFieldMissing("DateTime".to_owned())),
        }
    }

    pub fn date(&self) -> (r: Result<String, ProviderError>)
        ensures
            match r {
                Ok(s) => self.spec_datetime() matches Some(d) && s@ == spec_date_display(d),
                Err(e) => self.spec_datetime() is None && e.model()
                    == ProviderErrorModel::ExifFieldMissing("DateTime"@),
            },
    {
        match self.datetime() {
            Ok(d) => Ok(format_date_parts(&d)),
            Err(e) => Err(e),
        }
    }

    pub fn date_year(&self) -> (r: Result<String, ProviderError>)
        ensures
            match r {
                Ok(s) => self.spec_datetime() matches Some(d) && s@ == spec_padded(
                    d.year as nat,
                    4,
                ),
                Err(e) => self.spec_datetime() is None && e.model()
                    == ProviderErrorModel::ExifFieldMissing("DateTime"@),
            },
    {
        match self.datetime() {
            Ok(d) => Ok(u32_padded(d.year as u32, 4)),
            Err(e) => Err(e),
        }
    }

    pub fn date_month(&self) -> (r: Result<String, ProviderError>)
        ensures
            match r {
                Ok(s) => self.spec_datetime() matches Some(d) && s@ == spec_padded(
                    d.month as nat,
                    2,
                ),
                Err(e) => self.spec_datetime() is None && e.model()
                    == ProviderErrorModel::ExifFieldMissing("DateTime"@),
            },
    {
        match self.datetime() {
            Ok(d) => Ok(u32_padded(d.month as u32, 2)),
            Err(e) => Err(e),
        }
    }

    pub fn date_day(&self) -> (r: Result<String, ProviderError>)
        ensures
            match r {
                Ok(s) => self.spec_datetime() matches Some(d) && s@ == spec_padded(d.day as nat, 2),
                Err(e) => self.spec_datetime() is None && e.model()
                    == ProviderErrorModel::ExifFieldMissing("DateTime"@),
            },
    {
        match self.datetime() {
            Ok(d) => Ok(u32_padded(d.day as u32, 2)),
            Err(e) => Err(e),
        }
    }
}

/// A unit of logic that computes the value of one or more named template
/// variables. The set is closed; each variant is documented with the names
/// it serves.
#[derive(Debug)]
pub enum Provider {
    /// A plain value, rendered as-is under any name. Also carries the
    /// private canonical source path under the reserved `:file.path` name.
    Fixed(String),
    /// `file.path`, `file.name`, `file.stem`, `file.extension`, and the
    /// `file.name.date` facets, all derived from the seeded source path.
    FileIdentity,
    /// `file.md.creation_date` and its facets, from filesystem metadata
    /// gathered when the context was prepared.
    Metadata(Option<DateParts>),
    /// `exif.date` and its facets, from the embedded metadata container.
    Exif(ExifTemplateValue),
    /// `date` and its facets: the first of the embedded-metadata date and
    /// the filesystem creation date that resolves.
    CompositeDate,
}

/// The value of a `Provider`, over character sequences and plain dates.
pub enum ProviderModel {
    Fixed(Seq<char>),
    FileIdentity,
    Metadata(Option<DateParts>),
    Exif(Option<DateParts>),
    CompositeDate,
}

impl Provider {
    pub open spec fn model(&self) -> ProviderModel {
        match self {
            Provider::Fixed(s) => ProviderModel::Fixed(s@),
            Provider::FileIdentity => ProviderModel::FileIdentity,
            Provider::Metadata(d) => ProviderModel::Metadata(*d),
            Provider::Exif(e) => ProviderModel::Exif(e.spec_datetime()),
            Provider::CompositeDate => ProviderModel::CompositeDate,
        }
    }
}

/// The model of a context: the name-to-provider bindings in the order they
/// were inserted.
pub type ContextModel = Seq<(Seq<char>, ProviderModel)>;

/// Resolves a name to the provider bound to it last.
pub open spec fn lookup(m: ContextModel, key: Seq<char>) -> Option<ProviderModel>
    decreases m.len(),
{
    if m.len() == 0 {
        None
    } else if m.last().0 == key {
        Some(m.last().1)
    } else {
        lookup(m.drop_last(), key)
    }
}

/// The rendering context of a template: a registry of named providers.
#[derive(Debug)]
pub struct Context {
    entries: Vec<(String, usize)>,
    providers: Vec<Provider>,
}

impl Context {
    /// Every name is bound to a provider the registry owns.
    pub closed spec fn wf(&self) -> bool {
        forall|i: int|
            0 <= i < self.entries@.len() ==> (#[trigger] self.entries@[i]).1
                < self.providers@.len()
    }

    pub closed spec fn model(&self) -> ContextModel {
        Seq::new(
            self.entries@.len(),
            |i: int|
                (
                    self.entries@[i].0@,
                    self.providers@[self.entries@[i].1 as int].model(),
                ),
        )
    }

    pub fn new() -> (r: Self)
        ensures
            r.wf(),
            r.model() == Seq::<(Seq<char>, ProviderModel)>::empty(),
    {
        let r = Context { entries: Vec::new(), providers: Vec::new() };
        assert(r.model() =~= Seq::<(Seq<char>, ProviderModel)>::empty());
        r
    }

    /// Registers one provider under every given name. The name list must
    /// not be empty: that is a programming-contract violation, not a
    /// runtime condition.
    pub fn insert(&mut self, keys: &[&str], value: Provider)
        requires
            old(self).wf(),
            keys@.len() > 0,
        ensures
            final(self).wf(),
            final(self).model() == old(self).model() + Seq::new(
                keys@.len(),
                |i: int| (keys@[i]@, value.model()),
            ),
    {
        let ghost vm = value.model();
        let ghost m0 = self.model();
        let idx = self.providers.len();
        self.providers.push(value);
        assert(self.model() =~= m0);
        let mut j: usize = 0;
        while j < keys.len()
            invariant
                self.wf(),
                j <= keys@.len(),
                idx < self.providers@.len(),
                self.providers@[idx as int].model() == vm,
                self.model() =~= m0 + Seq::new(j as nat, |i: int| (keys@[i]@, vm)),
            decreases keys@.len() - j,
        {
            let ghost mj = self.model();
            let name: String = slice_key(keys, j);
            self.entries.push((name, idx));
            assert(self.model() =~= mj + seq![(keys@[j as int]@, vm)]);
            assert(self.model() =~= m0 + Seq::new((j + 1) as nat, |i: int| (keys@[i]@, vm)));
            j += 1;
        }
        assert(final(self).model() =~= old(self).model() + Seq::new(
            keys@.len(),
            |i: int| (keys@[i]@, vm),
        ));
    }

    /// The provider bound to `key`, when one is.
    pub fn get(&self, key: &str) -> (r: Option<&Provider>)
        requires
            self.wf(),
        ensures
            match r {
                Some(p) => lookup(self.model(), key@) == Some(p.model()),
                None => lookup(self.model(), key@) is None,
            },
    {
        let n = self.entries.len();
        let mut j: usize = n;
        assert(self.model().take(n as int) =~= self.model());
        while j > 0
            invariant
                self.wf(),
                j <= n,
                n == self.entries@.len(),
                lookup(self.model(), key@) == lookup(self.model().take(j as int), key@),
            decreases j,
        {
            let e = &self.entries[j - 1];
            let ghost pre = self.model().take(j as int);
            if str_eq(e.0.as_str(), key) {
                let p = &self.providers[e.1];
                assert(pre.last() == (e.0@, p.model()));
                return Some(p);
            }
            assert(pre.last().0 != key@);
            assert(pre.drop_last() =~= self.model().take(j - 1));
            j -= 1;
        }
        assert(self.model().take(0) =~= Seq::<(Seq<char>, ProviderModel)>::empty());
        None
    }

    /// The provider bound to `key`, or a missing-variable error naming it.
    pub fn get_or_err(&self, key: &str) -> (r: Result<&Provider, ProviderError>)
        requires
            self.wf(),
        ensures
            match r {
                Ok(p) => lookup(self.model(), key@) == Some(p.model()),
                Err(e) => lookup(self.model(), key@) is None && e.model()
                    == ProviderErrorModel::MissingVariable(key@),
            },
    {
        match self.get(key) {
            Some(p) => Ok(p),
            None => Err(missing_variable(key.to_owned())),
        }
    }
}

impl Default for Context {
    fn default() -> (r: Self)
        ensures
            r.wf(),
            r.model() == Seq::<(Seq<char>, ProviderModel)>::empty(),
    {
        Context::new()
    }
}

/// The error a lookup of an unregistered variable raises.
pub fn missing_variable(name: String) -> (r: ProviderError)
    ensures
        r.model() == ProviderErrorModel::MissingVariable(name@),
{
    ProviderError::MissingVariable(name)
}

fn slice_key(keys: &[&str], j: usize) -> (r: String)
    requires
        j < keys@.len(),
    ensures
        r@ == keys@[j as int]@,
{
    keys[j].to_owned()
}

} // verus!
