//! The typed profile, organization and messaging data the endpoint layer
//! maps responses into, held as plain values, with the pure helpers that
//! read them.

use vstd::prelude::*;
use vstd::string::*;

use crate::strutil::dec_str;
use crate::strutil::lemma_split_on_len;
use crate::strutil::split_on;
use crate::strutil::split_str;
use crate::strutil::trim_spec;
use crate::strutil::trim_str;
use crate::strutil::usize_to_string;

verus! {

/// A locale: a country code and a language code, as plain text.
pub struct Locale {
    pub country: String,
    pub language: String,
}

/// A person's name.
pub struct PersonName {
    pub first: String,
    pub last: String,
}

impl PersonName {
    /// The full name: first and last, space-separated.
    pub fn full_name(&self) -> (r: String)
        ensures
            r@ == self.first@ + " "@ + self.last@,
    {
        let mut out = self.first.clone();
        out.append(" ");
        out.append(self.last.as_str());
        out
    }
}

/// A postal address, split on commas into its leading components; the
/// country and postal code cannot be derived from a plain split and stay
/// empty.
pub struct Address {
    pub raw: String,
    pub street: Option<String>,
    pub city: Option<String>,
    pub state: Option<String>,
    pub country: Option<String>,
    pub postal_code: Option<String>,
}

impl Address {
    /// Splits a raw address on commas; the first three parts, trimmed,
    /// become street, city and state.
    pub fn parse(raw_address: &str) -> (r: Address)
        ensures
            r.raw@ == raw_address@,
            r.street matches Some(s) && s@ == trim_spec(split_on(raw_address@, ',')[0]),
            r.city.deep_view() == if split_on(raw_address@, ',').len() >= 2 {
                Some(trim_spec(split_on(raw_address@, ',')[1]))
            } else {
                None::<Seq<char>>
            },
            r.state.deep_view() == if split_on(raw_address@, ',').len() >= 3 {
                Some(trim_spec(split_on(raw_address@, ',')[2]))
            } else {
                None::<Seq<char>>
            },
            r.country is None,
            r.postal_code is None,
    {
        let parts = split_str(raw_address, ',');
        proof {
            lemma_split_on_len(raw_address@, ',');
            assert(parts.deep_view().len() == parts@.len());
        }
        let street = Some(trim_str(parts[0].as_str()));
        let city = if parts.len() >= 2 {
            Some(trim_str(parts[1].as_str()))
        } else {
            None
        };
        let state = if parts.len() >= 3 {
            Some(trim_str(parts[2].as_str()))
        } else {
            None
        };
        Address {
            raw: raw_address.to_owned(),
            street,
            city,
            state,
            country: None,
            postal_code: None,
        }
    }
}

/// A geographic location reference.
pub struct GeoLocation {
    pub geo_urn: Option<String>,
    pub postal_code: Option<String>,
}

/// A birth date; each component may be absent, and the month is a number
/// within [1, 12] when present.
pub struct BirthDate {
    pub day: Option<u8>,
    pub month: Option<u8>,
    pub year: Option<u16>,
}

/// Generic paging data used throughout the upstream's responses.
pub struct Paging {
    pub count: u32,
    pub links: Vec<String>,
    pub start: u32,
    pub total: u32,
}

/// A year and month, with the month a number within [1, 12].
pub struct YearMonth {
    pub year: i32,
    pub month: u8,
}

/// A time span: a start, and an end that is absent for a current position.
pub struct TimePeriod {
    pub start_date: YearMonth,
    pub end_date: Option<YearMonth>,
}

/// The month count from `start` to `end`, negative when `end` precedes
/// `start`.
pub open spec fn months_between(start: YearMonth, end: YearMonth) -> int {
    (end.year - start.year) * 12 + (end.month - start.month)
}

/// The clamp applied to a raw month count: at least one month, at most
/// what a 32-bit count holds.
pub open spec fn clamp_months(m: int) -> int {
    if m < 1 {
        1
    } else if m > u32::MAX {
        u32::MAX as int
    } else {
        m
    }
}

/// The span of a time period in whole months, measured to its end date or,
/// without one, to the given current month: never less than one, and
/// capped at what a 32-bit count holds.
pub open spec fn duration_months_of(tp: TimePeriod, now: YearMonth) -> int {
    let end = match tp.end_date {
        Some(e) => e,
        None => now,
    };
    clamp_months(months_between(tp.start_date, end))
}

/// The human-readable text for a month count: months below a year, else
/// years with the remaining months.
pub open spec fn duration_text(months: int) -> Seq<char> {
    if months < 12 {
        if months == 1 {
            "1 month"@
        } else {
            dec_str(months) + " months"@
        }
    } else {
        let years = months / 12;
        let rem = months % 12;
        if rem == 0 {
            if years == 1 {
                "1 year"@
            } else {
                dec_str(years) + " years"@
            }
        } else {
            if years == 1 {
                "1 year "@ + dec_str(rem) + " months"@
            } else {
                dec_str(years) + " years "@ + dec_str(rem) + " months"@
            }
        }
    }
}

/// Formats a month count as duration text.
pub fn month_count_text(months: u32) -> (r: String)
    ensures
        r@ == duration_text(months as int),
{
    if months < 12 {
        if months == 1 {
            "1 month".to_owned()
        } else {
            let mut r = usize_to_string(months as usize);
            r.append(" months");
            r
        }
    } else {
        let years = months / 12;
        let rem = months % 12;
        if rem == 0 {
            if years == 1 {
                "1 year".to_owned()
            } else {
                let mut r = usize_to_string(years as usize);
                r.append(" years");
                r
            }
        } else if years == 1 {
            let mut r = "1 year ".to_owned();
            r.append(usize_to_string(rem as usize).as_str());
            r.append(" months");
            r
        } else {
            let mut r = usize_to_string(years as usize);
            r.append(" years ");
            r.append(usize_to_string(rem as usize).as_str());
            r.append(" months");
            r
        }
    }
}

/// Relies on time::OffsetDateTime::now_utc, and its year and month
/// accessors: the current UTC year and month; the month number is within
/// [1, 12].
#[verifier::external_body]
fn current_year_month() -> (r: (i32, u8))
    ensures
        1 <= r.1 <= 12,
{
    let now = time::OffsetDateTime::now_utc();
    (now.year(), now.month() as u8)
}

impl TimePeriod {
    /// The span in whole months, measured to the end date or to the given
    /// current month, and never less than one.
    pub fn duration_months_at(&self, now: &YearMonth) -> (r: u32)
        ensures
            r as int == duration_months_of(*self, *now),
    {
        let end: &YearMonth = match &self.end_date {
            Some(e) => e,
            None => now,
        };
        let dy: i64 = end.year as i64 - self.start_date.year as i64;
        let dm: i64 = end.month as i64 - self.start_date.month as i64;
        let months: i64 = dy * 12 + dm;
        if months < 1 {
            1
        } else if months > u32::MAX as i64 {
            u32::MAX
        } else {
            months as u32
        }
    }

    /// The span in whole months, measured to the current month when no end
    /// date is set; at least one month, and with an end date exactly the
    /// clamped month count between the start and the end.
    pub fn duration_months(&self) -> (r: Option<u32>)
        ensures
            r is Some,
            r matches Some(m) ==> m >= 1,
            self.end_date matches Some(e) ==> (r matches Some(m) && m as int == clamp_months(
                months_between(self.start_date, e),
            )),
    {
        let (y, mo) = current_year_month();
        let now = YearMonth { year: y, month: mo };
        Some(self.duration_months_at(&now))
    }

    /// Formats the span to the given current month as duration text.
    pub fn duration_string_at(&self, now: &YearMonth) -> (r: String)
        ensures
            r@ == duration_text(duration_months_of(*self, *now)),
    {
        let months = self.duration_months_at(now);
        month_count_text(months)
    }

    /// Formats the span to the current month as duration text.
    pub fn duration_string(&self) -> (r: String)
        ensures
            exists|now: YearMonth|
                1 <= now.month <= 12 && r@ == duration_text(duration_months_of(*self, now)),
    {
        let (y, mo) = current_year_month();
        let now = YearMonth { year: y, month: mo };
        let r = self.duration_string_at(&now);
        proof {
            assert(1 <= now.month <= 12 && r@ == duration_text(duration_months_of(*self, now)));
        }
        r
    }
}

/// One artifact of a served image.
pub struct ImageArtifact {
    pub height: u32,
    pub width: u32,
    pub expires_at: Option<u64>,
    pub file_identifying_url_path_segment: Option<String>,
}

/// A served image: a root URL and its artifacts.
pub struct VectorImage {
    pub root_url: Option<String>,
    pub artifacts: Vec<ImageArtifact>,
}

/// A container around a served image.
pub struct VectorImageContainer {
    pub vector_image: Option<VectorImage>,
}

/// The first artifact's path segment, or empty when absent.
pub open spec fn segment_text(a: ImageArtifact) -> Seq<char> {
    match a.file_identifying_url_path_segment {
        Some(s) => s@,
        None => Seq::<char>::empty(),
    }
}

/// The absolute URL text of a served image: the root with the first
/// artifact's path segment appended, or nothing without a root or without
/// artifacts.
pub open spec fn image_url_of(vi: VectorImage) -> Option<Seq<char>> {
    match vi.root_url {
        Some(root) => if vi.artifacts@.len() > 0 {
            Some(root@ + segment_text(vi.artifacts@[0]))
        } else {
            None
        },
        None => None,
    }
}

impl VectorImage {
    /// Composes the image's absolute URL text.
    pub fn url_text(&self) -> (r: Option<String>)
        ensures
            r.deep_view() == image_url_of(*self),
    {
        match &self.root_url {
            None => None,
            Some(root) => {
                if self.artifacts.len() > 0 {
                    let mut out = root.clone();
                    match &self.artifacts[0].file_identifying_url_path_segment {
                        Some(seg) => {
                            out.append(seg.as_str());
                        },
                        None => {
                            proof {
                                assert(out@ + Seq::<char>::empty() =~= out@);
                            }
                        },
                    }
                    Some(out)
                } else {
                    None
                }
            },
        }
    }
}

/// A profile picture; the photo-filter edit data the upstream attaches is
/// not modeled.
pub struct ProfilePicture {
    pub display_image: Option<String>,
    pub original_image: Option<String>,
}

/// A small profile record embedded in other responses.
pub struct MiniProfile {
    pub dash_entity_urn: Option<String>,
    pub entity_urn: Option<String>,
    pub object_urn: Option<String>,
    pub public_identifier: Option<String>,
    pub first_name: Option<String>,
    pub last_name: Option<String>,
    pub occupation: Option<String>,
    pub tracking_id: Option<String>,
    pub picture: Option<VectorImageContainer>,
}

/// A location as the upstream reports it.
pub struct Location {
    pub basic_location: Option<BasicLocation>,
}

/// A basic location: country and postal code.
pub struct BasicLocation {
    pub country_code: Option<String>,
    pub postal_code: Option<String>,
}

/// An employee count range.
pub struct EmployeeCountRange {
    pub start: u32,
    pub end: u32,
}

/// A small company record embedded in other responses.
pub struct MiniCompany {
    pub active: bool,
    pub dash_company_urn: Option<String>,
    pub entity_urn: String,
    pub logo: Option<VectorImageContainer>,
    pub name: String,
    pub object_urn: String,
    pub showcase: bool,
    pub tracking_id: String,
    pub universal_name: Option<String>,
}

/// Company data attached to a position.
pub struct CompanyInfo {
    pub employee_count_range: Option<EmployeeCountRange>,
    pub industries: Vec<String>,
    pub mini_company: Option<MiniCompany>,
}

/// One position of a profile.
pub struct Experience {
    pub entity_urn: Option<String>,
    pub title: Option<String>,
    pub company_name: Option<String>,
    pub company_urn: Option<String>,
    pub company: Option<CompanyInfo>,
    pub description: Option<String>,
    pub time_period: Option<TimePeriod>,
    pub geo_location_name: Option<String>,
    pub geo_urn: Option<String>,
    pub location_name: Option<String>,
    pub region: Option<String>,
}

/// The company logo's URL text for a position, when the nested image data
/// is present.
pub open spec fn company_logo_url_of(e: Experience) -> Option<Seq<char>> {
    match e.company {
        Some(c) => match c.mini_company {
            Some(m) => match m.logo {
                Some(l) => match l.vector_image {
                    Some(vi) => image_url_of(vi),
                    None => None,
                },
                None => None,
            },
            None => None,
        },
        None => None,
    }
}

impl Experience {
    /// Composes the company logo's URL text.
    pub fn get_company_logo_url(&self) -> (r: Option<String>)
        ensures
            r.deep_view() == company_logo_url_of(*self),
    {
        match &self.company {
            Some(c) => match &c.mini_company {
                Some(m) => match &m.logo {
                    Some(l) => match &l.vector_image {
                        Some(vi) => vi.url_text(),
                        None => None,
                    },
                    None => None,
                },
                None => None,
            },
            None => None,
        }
    }

    /// Whether this is a current position: a time period with no end date.
    pub fn is_current(&self) -> (r: bool)
        ensures
            r == (self.time_period matches Some(tp) && tp.end_date is None),
    {
        match &self.time_period {
            Some(tp) => tp.end_date.is_none(),
            None => false,
        }
    }
}

/// School data attached to an education record.
pub struct SchoolInfo {
    pub active: bool,
    pub entity_urn: String,
    pub logo: Option<VectorImageContainer>,
    pub object_urn: String,
    pub school_name: String,
    pub tracking_id: String,
}

/// One education record of a profile.
pub struct Education {
    pub entity_urn: String,
    pub school_name: Option<String>,
    pub school_urn: Option<String>,
    pub school: Option<SchoolInfo>,
    pub degree_name: Option<String>,
    pub degree_urn: Option<String>,
    pub field_of_study: Option<String>,
    pub field_of_study_urn: Option<String>,
    pub activities: Option<String>,
    pub description: Option<String>,
    pub grade: Option<String>,
    pub time_period: Option<TimePeriod>,
    pub honors: Vec<String>,
    pub test_scores: Vec<String>,
}

/// The school logo's URL text for an education record, when the nested
/// image data is present.
pub open spec fn school_logo_url_of(e: Education) -> Option<Seq<char>> {
    match e.school {
        Some(s) => match s.logo {
            Some(l) => match l.vector_image {
                Some(vi) => image_url_of(vi),
                None => None,
            },
            None => None,
        },
        None => None,
    }
}

impl Education {
    /// Parses the activities text into a list: one entry per line that is
    /// non-empty after trimming and removal of leading `- ` markers.
    pub fn get_activities_list(&self) -> (r: Vec<String>)
        ensures
            self.activities matches Some(text) ==> r.deep_view() == activities_list_of(text@),
            self.activities is None ==> r@.len() == 0,
    {
        match &self.activities {
            None => Vec::new(),
            Some(text) => {
                let lines = split_str(text.as_str(), '\n');
                let mut out: Vec<String> = Vec::new();
                let mut k: usize = 0;
                let n = lines.len();
                proof {
                    assert(lines.deep_view().len() == lines@.len());
                    assert(lines.deep_view().take(0) =~= Seq::<Seq<char>>::empty());
                    assert(out.deep_view() =~= Seq::<Seq<char>>::empty());
                }
                while k < n
                    invariant
                        n == lines@.len(),
                        k <= n,
                        lines.deep_view().len() == n,
                        out.deep_view() == activities_of(lines.deep_view().take(k as int)),
                    decreases n - k,
                {
                    let t = trim_str(lines[k].as_str());
                    let u = strip_dashes(t.as_str());
                    proof {
                        let lv = lines.deep_view();
                        assert(lv.take(k + 1 as int).drop_last() =~= lv.take(k as int));
                        assert(lv.take(k + 1 as int).last() == lv[k as int]);
                        assert(lines[k as int]@ == lv[k as int]);
                        assert(u@ == strip_dash_prefixes(trim_spec(lv[k as int])));
                    }
                    if u.as_str().unicode_len() > 0 {
                        let ghost old_dv = out.deep_view();
                        let ghost uv = u@;
                        out.push(u);
                        proof {
                            assert(out.deep_view() =~= old_dv.push(uv));
                        }
                    }
                    k = k + 1;
                }
                proof {
                    assert(lines.deep_view().take(n as int) =~= lines.deep_view());
                }
                out
            },
        }
    }

    /// Composes the school logo's URL text.
    pub fn get_school_logo_url(&self) -> (r: Option<String>)
        ensures
            r.deep_view() == school_logo_url_of(*self),
    {
        match &self.school {
            Some(s) => match &s.logo {
                Some(l) => match &l.vector_image {
                    Some(vi) => vi.url_text(),
                    None => None,
                },
                None => None,
            },
            None => None,
        }
    }
}

/// An activity line, cleaned: every leading `- ` marker removed.
pub open spec fn strip_dash_prefixes(s: Seq<char>) -> Seq<char>
    decreases s.len(),
{
    if s.len() >= 2 && s[0] == '-' && s[1] == ' ' {
        strip_dash_prefixes(s.skip(2))
    } else {
        s
    }
}

fn strip_dashes(s: &str) -> (r: String)
    ensures
        r@ == strip_dash_prefixes(s@),
{
    let n = s.unicode_len();
    let mut a: usize = 0;
    proof {
        assert(s@.skip(0) =~= s@);
    }
    while a < n && a + 1 < n && s.get_char(a) == '-' && s.get_char(a + 1) == ' '
        invariant
            n == s@.len(),
            a <= n,
            strip_dash_prefixes(s@) == strip_dash_prefixes(s@.skip(a as int)),
        decreases n - a,
    {
        proof {
            let t = s@.skip(a as int);
            assert(t[0] == s@[a as int]);
            assert(t[1] == s@[a + 1 as int]);
            assert(t.skip(2) =~= s@.skip(a + 2 as int));
        }
        a = a + 2;
    }
    let r = s.substring_char(a, n).to_owned();
    proof {
        let t = s@.skip(a as int);
        if t.len() >= 2 {
            assert(t[0] == s@[a as int]);
            assert(t[1] == s@[a + 1 as int]);
        }
        assert(strip_dash_prefixes(t) == t);
        assert(s@.subrange(a as int, n as int) =~= t);
    }
    r
}

/// The cleaned activity entries of a list of lines: each trimmed, its
/// leading `- ` markers removed, empty results dropped.
pub open spec fn activities_of(lines: Seq<Seq<char>>) -> Seq<Seq<char>>
    decreases lines.len(),
{
    if lines.len() == 0 {
        Seq::<Seq<char>>::empty()
    } else {
        let rest = activities_of(lines.drop_last());
        let t = strip_dash_prefixes(trim_spec(lines.last()));
        if t.len() > 0 {
            rest.push(t)
        } else {
            rest
        }
    }
}

/// The activity entries of an activities text, split on line feeds.
pub open spec fn activities_list_of(text: Seq<char>) -> Seq<Seq<char>> {
    activities_of(split_on(text, '\n'))
}

/// A skill entry.
pub struct Skill {
    pub entity_urn: String,
    pub name: String,
}

/// A certification entry.
pub struct Certification {
    pub entity_urn: String,
    pub name: String,
    pub authority: Option<String>,
    pub license_number: Option<String>,
    pub time_period: Option<TimePeriod>,
    pub url: Option<String>,
}

/// A course entry.
pub struct Course {
    pub entity_urn: String,
    pub name: String,
    pub number: Option<String>,
}

/// An honor or award entry.
pub struct Honor {
    pub entity_urn: String,
    pub title: String,
    pub issuer: Option<String>,
    pub issue_date: Option<YearMonth>,
    pub description: Option<String>,
    pub occupation: Option<String>,
}

/// A spoken-language entry.
pub struct Language {
    pub entity_urn: String,
    pub name: String,
    pub proficiency: LanguageProficiency,
}

/// Language proficiency levels.
pub enum LanguageProficiency {
    NativeOrBilingual,
    FullProfessional,
    ProfessionalWorking,
    LimitedWorking,
    Elementary,
}

/// A test-score entry.
pub struct TestScore {
    pub entity_urn: String,
    pub name: String,
    pub score: String,
    pub date: Option<YearMonth>,
    pub description: Option<String>,
    pub occupation: Option<String>,
}

/// A website listed in contact information.
pub struct Website {
    pub url: Option<String>,
    pub label: Option<String>,
}

/// Contact information, held as plain text values.
pub struct ContactInfo {
    pub email_address: Option<String>,
    pub websites: Vec<Website>,
    pub twitter: Vec<String>,
    pub phone_numbers: Vec<String>,
    pub birthdate: Option<BirthDate>,
    pub ims: Option<Vec<String>>,
}

/// A volunteer experience entry.
pub struct VolunteerExperience {
    pub entity_urn: String,
    pub role: String,
    pub company_name: Option<String>,
    pub company_urn: Option<String>,
    pub company: Option<CompanyInfo>,
    pub cause: Option<String>,
    pub description: Option<String>,
    pub time_period: Option<TimePeriod>,
    pub region: Option<String>,
}

/// A volunteer cause entry.
pub struct VolunteerCause {
    pub cause_name: String,
    pub cause_type: String,
}

/// A profile as the endpoint layer assembles it.
pub struct Profile {
    pub entity_urn: Option<String>,
    pub first_name: Option<String>,
    pub last_name: Option<String>,
    pub headline: Option<String>,
    pub summary: Option<String>,
    pub industry_name: Option<String>,
    pub industry_urn: Option<String>,
    pub geo_country_name: Option<String>,
    pub geo_country_urn: Option<String>,
    pub geo_location_name: Option<String>,
    pub geo_location_backfilled: Option<bool>,
    pub geo_location: Option<GeoLocation>,
    pub address: Option<Address>,
    pub birth_date: Option<BirthDate>,
    pub default_locale: Option<Locale>,
    pub supported_locales: Option<Vec<Locale>>,
    pub location: Option<Location>,
    pub location_name: Option<String>,
    pub mini_profile: Option<MiniProfile>,
    pub profile_picture: Option<ProfilePicture>,
    pub profile_picture_original_image: Option<VectorImageContainer>,
    pub show_education_on_profile_top_card: Option<bool>,
    pub student: Option<bool>,
    pub elt: Option<bool>,
    pub version_tag: Option<String>,
    pub profile_id: String,
    pub experience: Vec<Experience>,
    pub education: Vec<Education>,
    pub skills: Vec<Skill>,
    pub contact: ContactInfo,
}

/// The profile image's URL text, when the nested image data is present.
pub open spec fn profile_image_url_of(p: Profile) -> Option<Seq<char>> {
    match p.profile_picture_original_image {
        Some(c) => match c.vector_image {
            Some(vi) => image_url_of(vi),
            None => None,
        },
        None => None,
    }
}

impl Profile {
    /// The full name: both names space-separated, one of them alone, or
    /// nothing when neither is present.
    pub fn get_full_name(&self) -> (r: Option<String>)
        ensures
            r is Some <==> (self.first_name is Some || self.last_name is Some),
            self.first_name matches Some(f) ==> (self.last_name matches Some(l) ==> (
            r matches Some(n) && n@ == f@ + " "@ + l@)),
            self.first_name matches Some(f) ==> (self.last_name is None ==> (r matches Some(n)
                && n@ == f@)),
            self.last_name matches Some(l) ==> (self.first_name is None ==> (r matches Some(n)
                && n@ == l@)),
    {
        match (&self.first_name, &self.last_name) {
            (Some(first), Some(last)) => {
                let mut out = first.clone();
                out.append(" ");
                out.append(last.as_str());
                Some(out)
            },
            (Some(first), None) => Some(first.clone()),
            (None, Some(last)) => Some(last.clone()),
            (None, None) => None,
        }
    }

    /// Composes the profile image's URL text.
    pub fn get_profile_image_url(&self) -> (r: Option<String>)
        ensures
            r.deep_view() == profile_image_url_of(*self),
    {
        match &self.profile_picture_original_image {
            Some(c) => match &c.vector_image {
                Some(vi) => vi.url_text(),
                None => None,
            },
            None => None,
        }
    }

    /// The profile id read off the entity identifier: its last
    /// colon-delimited part.
    pub fn get_profile_id(&self) -> (r: Option<String>)
        ensures
            r is Some <==> self.entity_urn is Some,
            self.entity_urn matches Some(u) ==> (r matches Some(id) && id@ == split_on(
                u@,
                ':',
            ).last()),
    {
        match &self.entity_urn {
            None => None,
            Some(u) => {
                let parts = split_str(u.as_str(), ':');
                proof {
                    lemma_split_on_len(u@, ':');
                    assert(parts.deep_view().len() == parts@.len());
                }
                let id = parts[parts.len() - 1].clone();
                proof {
                    assert(id@ == parts.deep_view().last());
                }
                Some(id)
            },
        }
    }
}

/// A first-degree connection.
pub struct Connection {
    pub urn_id: String,
    pub public_id: String,
    pub distance: String,
}

/// Member badge flags.
pub struct MemberBadges {
    pub premium: bool,
    pub open_link: bool,
    pub influencer: bool,
    pub job_seeker: bool,
}

/// High-level network data of a profile.
pub struct NetworkInfo {
    pub followers_count: u64,
}

/// A school's profile.
pub struct School {
    pub name: String,
}

/// A company's profile.
pub struct Company {
    pub name: String,
}

/// One hit of a people search.
pub struct PersonSearchResult {
    pub urn_id: String,
    pub public_id: String,
    pub distance: String,
}

/// A received invitation.
pub struct Invitation {
    pub entity_urn: String,
    pub shared_secret: String,
}

/// Conversation metadata.
pub struct Conversation {
    pub id: String,
}

/// Details of one conversation.
pub struct ConversationDetails {
    pub id: String,
}

/// Parameters of a people search.
pub struct SearchPeopleParams {
    pub keywords: Option<String>,
    pub connection_of: Option<String>,
    pub network_depth: Option<String>,
    pub current_company: Option<Vec<String>>,
    pub past_companies: Option<Vec<String>>,
    pub nonprofit_interests: Option<Vec<String>>,
    pub profile_languages: Option<Vec<String>>,
    pub regions: Option<Vec<String>>,
    pub industries: Option<Vec<String>>,
    pub schools: Option<Vec<String>>,
    pub include_private_profiles: bool,
    pub limit: Option<usize>,
}

impl Default for SearchPeopleParams {
    /// Empty parameters: no filter set, no keyword, no limit.
    fn default() -> (r: SearchPeopleParams)
        ensures
            r.keywords is None,
            r.connection_of is None,
            r.network_depth is None,
            r.current_company is None,
            r.past_companies is None,
            r.nonprofit_interests is None,
            r.profile_languages is None,
            r.regions is None,
            r.industries is None,
            r.schools is None,
            !r.include_private_profiles,
            r.limit is None,
    {
        SearchPeopleParams {
            keywords: None,
            connection_of: None,
            network_depth: None,
            current_company: None,
            past_companies: None,
            nonprofit_interests: None,
            profile_languages: None,
            regions: None,
            industries: None,
            schools: None,
            include_private_profiles: false,
            limit: None,
        }
    }
}

/// Maps people-search hits to connections, field for field.
pub fn connections_from_results(results: Vec<PersonSearchResult>) -> (r: Vec<Connection>)
    ensures
        r@.len() == results@.len(),
        forall|i: int|
            0 <= i < results@.len() ==> #[trigger] r@[i].urn_id == results@[i].urn_id
                && r@[i].public_id == results@[i].public_id && r@[i].distance
                == results@[i].distance,
{
    let mut out: Vec<Connection> = Vec::new();
    let mut k: usize = 0;
    let n = results.len();
    while k < n
        invariant
            n == results@.len(),
            k <= n,
            out@.len() == k,
            forall|i: int|
                0 <= i < k ==> #[trigger] out@[i].urn_id == results@[i].urn_id
                    && out@[i].public_id == results@[i].public_id && out@[i].distance
                    == results@[i].distance,
        decreases n - k,
    {
        let c = Connection {
            urn_id: results[k].urn_id.clone(),
            public_id: results[k].public_id.clone(),
            distance: results[k].distance.clone(),
        };
        out.push(c);
        k = k + 1;
    }
    out
}

/// One section of the full profile view, with its paging data.
pub struct CertificationView {
    pub elements: Vec<Certification>,
    pub entity_urn: String,
    pub paging: Paging,
    pub profile_id: String,
}

/// The course section of the full profile view.
pub struct CourseView {
    pub elements: Vec<Course>,
    pub entity_urn: String,
    pub paging: Paging,
    pub profile_id: String,
}

/// The honors section of the full profile view.
pub struct HonorView {
    pub elements: Vec<Honor>,
    pub entity_urn: String,
    pub paging: Paging,
    pub profile_id: String,
}

/// The languages section of the full profile view.
pub struct LanguageView {
    pub elements: Vec<Language>,
    pub entity_urn: String,
    pub paging: Paging,
    pub profile_id: String,
}

/// The position-group section of the full profile view.
pub struct PositionGroupView {
    pub elements: Vec<PositionGroup>,
    pub entity_urn: String,
    pub paging: Paging,
    pub profile_id: String,
}

/// A group of positions at one company.
pub struct PositionGroup {
    pub entity_urn: String,
    pub name: String,
    pub mini_company: Option<MiniCompany>,
    pub paging: Paging,
    pub positions: Vec<Experience>,
    pub time_period: Option<TimePeriod>,
    pub region: Option<String>,
}

/// The position section of the full profile view.
pub struct PositionView {
    pub elements: Vec<Experience>,
    pub entity_urn: String,
    pub paging: Paging,
    pub profile_id: String,
}

/// The education section of the full profile view.
pub struct EducationView {
    pub elements: Vec<Education>,
    pub entity_urn: String,
    pub paging: Paging,
    pub profile_id: String,
}

/// The skill section of the full profile view.
pub struct SkillView {
    pub elements: Vec<Skill>,
    pub entity_urn: String,
    pub paging: Paging,
    pub profile_id: String,
}

/// The test-score section of the full profile view.
pub struct TestScoreView {
    pub elements: Vec<TestScore>,
    pub entity_urn: String,
    pub paging: Paging,
    pub profile_id: String,
}

/// The volunteer-experience section of the full profile view.
pub struct VolunteerExperienceView {
    pub elements: Vec<VolunteerExperience>,
    pub entity_urn: String,
    pub paging: Paging,
    pub profile_id: String,
}

/// The volunteer-cause section of the full profile view.
pub struct VolunteerCauseView {
    pub elements: Vec<VolunteerCause>,
    pub entity_urn: String,
    pub paging: Paging,
    pub profile_id: String,
}

/// The organizations section of the full profile view, kept as raw text.
pub struct OrganizationView {
    pub elements: Vec<String>,
    pub entity_urn: String,
    pub paging: Paging,
    pub profile_id: String,
}

/// The patents section of the full profile view, kept as raw text.
pub struct PatentView {
    pub elements: Vec<String>,
    pub entity_urn: String,
    pub paging: Paging,
    pub profile_id: String,
}

/// The projects section of the full profile view, kept as raw text.
pub struct ProjectView {
    pub elements: Vec<String>,
    pub entity_urn: String,
    pub paging: Paging,
    pub profile_id: String,
}

/// The publications section of the full profile view, kept as raw text.
pub struct PublicationView {
    pub elements: Vec<String>,
    pub entity_urn: String,
    pub paging: Paging,
    pub profile_id: String,
}

/// The complete profile view the profile endpoint returns.
pub struct LinkedInProfileView {
    pub certification_view: CertificationView,
    pub course_view: CourseView,
    pub education_view: EducationView,
    pub entity_urn: String,
    pub honor_view: HonorView,
    pub language_view: LanguageView,
    pub organization_view: OrganizationView,
    pub patent_view: PatentView,
    pub position_group_view: PositionGroupView,
    pub position_view: PositionView,
    pub primary_locale: Locale,
    pub profile: Profile,
    pub project_view: ProjectView,
    pub publication_view: PublicationView,
    pub skill_view: SkillView,
    pub summary_treasury_media_count: u32,
    pub summary_treasury_medias: Vec<String>,
    pub test_score_view: TestScoreView,
    pub volunteer_cause_view: VolunteerCauseView,
    pub volunteer_experience_view: VolunteerExperienceView,
}

} // verus!
