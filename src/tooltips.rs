//! Startup tooltips: a promotion for the user's plan, the current
//! announcement, or a random tip.

use vstd::prelude::*;
use chrono::Datelike;
use crate::config_types::{lower_of, lowercase, Language};
use crate::i18n::{tr, translated, Catalogs};
use crate::text::{same_text, text_of, trim_text, trimmed, views};

verus! {

/// The plan of a signed-in account.
#[derive(Debug, Clone, Copy, PartialEq, Eq, Structural)]
pub enum PlanType {
    Free,
    Go,
    Plus,
    Pro,
    Team,
    Business,
    Enterprise,
    Edu,
    Unknown,
}

/// A feature that may announce itself with a tip.
#[derive(Debug, Clone, Copy, PartialEq, Eq, Structural)]
pub enum Feature {
    ShellSnapshot,
    Collab,
    Apps,
    Other,
}

/// The catalog key of a plan's promotion.
pub open spec fn promo_key(plan: Option<PlanType>) -> Seq<char> {
    match plan {
        Some(PlanType::Plus) | Some(PlanType::Business) | Some(PlanType::Team) | Some(
            PlanType::Enterprise,
        ) | Some(PlanType::Pro) => "tooltips.promo.paid"@,
        Some(PlanType::Go) | Some(PlanType::Free) => "tooltips.promo.free_go"@,
        _ => "tooltips.promo.other"@,
    }
}

pub fn promo_key_text(plan: Option<PlanType>) -> (r: String)
    ensures
        r@ == promo_key(plan),
{
    match plan {
        Some(PlanType::Plus) | Some(PlanType::Business) | Some(PlanType::Team) | Some(
            PlanType::Enterprise,
        ) | Some(PlanType::Pro) => text_of("tooltips.promo.paid"),
        Some(PlanType::Go) | Some(PlanType::Free) => text_of("tooltips.promo.free_go"),
        _ => text_of("tooltips.promo.other"),
    }
}

/// The tip of a feature that has one.
pub fn experimental_tooltip(catalogs: &Catalogs, feature: Feature, language: Language) -> (r: Option<
    String,
>)
    ensures
        feature == Feature::ShellSnapshot ==> r is Some && r->Some_0@ == translated(
            *catalogs,
            language,
            "tooltips.experimental.shell_snapshot"@,
        ),
        feature == Feature::Collab ==> r is Some && r->Some_0@ == translated(
            *catalogs,
            language,
            "tooltips.experimental.collab"@,
        ),
        feature == Feature::Apps ==> r is Some && r->Some_0@ == translated(
            *catalogs,
            language,
            "tooltips.experimental.apps"@,
        ),
        feature == Feature::Other ==> r is None,
{
    match feature {
        Feature::ShellSnapshot => Some(tr(catalogs, language, "tooltips.experimental.shell_snapshot")),
        Feature::Collab => Some(tr(catalogs, language, "tooltips.experimental.collab")),
        Feature::Apps => Some(tr(catalogs, language, "tooltips.experimental.apps")),
        Feature::Other => None,
    }
}

/// The catalog key of a feature's tip.
pub open spec fn feature_key(f: Feature) -> Option<Seq<char>> {
    match f {
        Feature::ShellSnapshot => Some("tooltips.experimental.shell_snapshot"@),
        Feature::Collab => Some("tooltips.experimental.collab"@),
        Feature::Apps => Some("tooltips.experimental.apps"@),
        Feature::Other => None,
    }
}

/// The tips of the announced features that have one, in order.
pub open spec fn feature_tips(c: Catalogs, fs: Seq<(Feature, bool)>, language: Language) -> Seq<
    Seq<char>,
>
    decreases fs.len(),
{
    if fs.len() == 0 {
        Seq::empty()
    } else {
        let rest = feature_tips(c, fs.drop_last(), language);
        if fs.last().1 && feature_key(fs.last().0) is Some {
            rest.push(translated(c, language, feature_key(fs.last().0)->Some_0))
        } else {
            rest
        }
    }
}

/// The tips of the features that announce themselves, in the order given.
pub fn experimental_tooltips(catalogs: &Catalogs, features: &Vec<(Feature, bool)>, language: Language) -> (r:
    Vec<String>)
    ensures
        views(r@) == feature_tips(*catalogs, features@, language),
{
    let mut r: Vec<String> = Vec::new();
    let mut i: usize = 0;
    while i < features.len()
        invariant
            i <= features.len(),
            views(r@) == feature_tips(*catalogs, features@.subrange(0, i as int), language),
        decreases features.len() - i,
    {
        let (feature, announced) = features[i];
        let ghost before = r@;
        let ghost s = features@.subrange(0, i as int + 1);
        assert(s.drop_last() =~= features@.subrange(0, i as int));
        if announced {
            if let Some(tip) = experimental_tooltip(catalogs, feature, language) {
                r.push(tip);
                assert(views(r@) =~= views(before).push(tip@));
            }
        }
        assert(views(r@) == feature_tips(*catalogs, s, language));
        i = i + 1;
    }
    assert(features@.subrange(0, features@.len() as int) =~= features@);
    r
}

/// Relies on `rand::random_range`: a uniformly drawn index below `len`.
#[verifier::external_body]
fn random_index(len: usize) -> (r: usize)
    requires
        len > 0,
    ensures
        r < len,
{
    rand::random_range(0..len)
}

/// Relies on `rand::random_ratio`: `true` with probability
/// `numerator / denominator`, so always where they are equal and never
/// where the numerator is 0. It panics on a zero denominator or a ratio
/// above one.
#[verifier::external_body]
fn random_ratio(numerator: u32, denominator: u32) -> (r: bool)
    requires
        denominator > 0,
        numerator <= denominator,
    ensures
        numerator == denominator ==> r,
        numerator == 0 ==> !r,
{
    rand::random_ratio(numerator, denominator)
}

/// The tip at `index` among `tips`, where there are any.
pub fn pick_tooltip_at(tips: &Vec<String>, index: usize) -> (r: Option<String>)
    ensures
        tips@.len() == 0 ==> r is None,
        tips@.len() > 0 ==> r is Some && r->Some_0 == tips@[(index as int) % (tips@.len() as int)],
{
    if tips.len() == 0 {
        None
    } else {
        Some(tips[index % tips.len()].clone())
    }
}

/// A random tip, where there are any.
pub fn pick_tooltip(tips: &Vec<String>) -> (r: Option<String>)
    ensures
        tips@.len() == 0 ==> r is None,
        tips@.len() > 0 ==> r is Some && exists|i: int| 0 <= i < tips@.len() && r->Some_0 == tips@[i],
{
    if tips.len() == 0 {
        return None;
    }
    let i = random_index(tips.len());
    pick_tooltip_at(tips, i)
}

/// The tooltip once the draws are made: the plan's promotion where it was
/// drawn, else the announcement where there is one, else the picked tip.
pub fn tooltip_for(
    catalogs: &Catalogs,
    plan: Option<PlanType>,
    language: Language,
    show_promo: bool,
    announcement: Option<String>,
    picked: Option<String>,
) -> (r: Option<String>)
    ensures
        show_promo ==> r is Some && r->Some_0@ == translated(*catalogs, language, promo_key(plan)),
        !show_promo && announcement is Some ==> r == announcement,
        !show_promo && announcement is None ==> r == picked,
{
    if show_promo {
        let key = promo_key_text(plan);
        return Some(tr(catalogs, language, key.as_str()));
    }
    if let Some(a) = announcement {
        return Some(a);
    }
    picked
}

/// A tooltip for startup: eight times in ten the plan's promotion, else
/// the announcement, else a random tip.
pub fn get_tooltip(
    catalogs: &Catalogs,
    plan: Option<PlanType>,
    language: Language,
    tips: &Vec<String>,
    announcement: Option<String>,
) -> (r: Option<String>)
    ensures
        r is None ==> announcement is None && tips@.len() == 0,
        r is Some ==> r->Some_0@ == translated(*catalogs, language, promo_key(plan)) || r
            == announcement || exists|i: int| 0 <= i < tips@.len() && r->Some_0 == tips@[i],
{
    let show_promo = random_ratio(8, 10);
    let picked = if show_promo || announcement.is_some() {
        None
    } else {
        pick_tooltip(tips)
    };
    tooltip_for(catalogs, plan, language, show_promo, announcement, picked)
}

/// The day number (days since the common era) of the date that chrono
/// reads from `s` in format `fmt`.
pub uninterp spec fn day_of(s: Seq<char>, fmt: Seq<char>) -> Option<int>;

/// Relies on `chrono::NaiveDate::parse_from_str`, and on
/// `Datelike::num_days_from_ce` to turn the date into its day number.
#[verifier::external_body]
fn parse_day(s: &str, fmt: &str) -> (r: Option<i32>)
    ensures
        match r {
            Some(d) => day_of(s@, fmt@) == Some(d as int),
            None => day_of(s@, fmt@) is None,
        },
{
    match chrono::NaiveDate::parse_from_str(s, fmt) {
        Ok(d) => Some(d.num_days_from_ce()),
        Err(_) => None,
    }
}

/// Whether regex-lite accepts a pattern.
pub uninterp spec fn pattern_compiles(p: Seq<char>) -> bool;

/// Whether regex-lite finds a match of pattern `p` somewhere in `t`.
pub uninterp spec fn pattern_matches(p: Seq<char>, t: Seq<char>) -> bool;

/// Relies on `regex_lite::Regex::new`: whether the pattern is valid.
#[verifier::external_body]
fn compile_pattern(p: &str) -> (r: bool)
    ensures
        r == pattern_compiles(p@),
{
    regex_lite::Regex::new(p).is_ok()
}

/// Relies on `regex_lite::Regex::is_match`, on the pattern compiled by
/// `Regex::new`: whether the pattern matches somewhere in the text.
#[verifier::external_body]
fn pattern_is_match(p: &str, text: &str) -> (r: bool)
    requires
        pattern_compiles(p@),
    ensures
        r == pattern_matches(p@, text@),
{
    match regex_lite::Regex::new(p) {
        Ok(re) => re.is_match(text),
        Err(_) => false,
    }
}

/// An announcement as written in the announcements document.
#[derive(Debug, Clone, PartialEq, Eq)]
pub struct AnnouncementTipRaw {
    pub content: String,
    pub from_date: Option<String>,
    pub to_date: Option<String>,
    pub version_regex: Option<String>,
    pub target_app: Option<String>,
}

/// An announcement with its dates and pattern read.
pub struct AnnouncementTip {
    pub content: String,
    pub from_day: Option<i32>,
    pub to_day: Option<i32>,
    /// The version pattern, valid where present.
    pub version_regex: Option<String>,
    pub target_app: String,
}

/// Whether an optional `YYYY-MM-DD` date reads (or is absent).
pub open spec fn date_reads(d: Option<String>) -> bool {
    match d {
        Some(s) => day_of(s@, "%Y-%m-%d"@) is Some,
        None => true,
    }
}

/// Whether an announcement can be read: some content, readable dates, a
/// valid pattern.
pub open spec fn raw_readable(raw: AnnouncementTipRaw) -> bool {
    &&& trimmed(raw.content@).len() > 0
    &&& date_reads(raw.from_date)
    &&& date_reads(raw.to_date)
    &&& match raw.version_regex {
        Some(p) => pattern_compiles(p@),
        None => true,
    }
}

fn copy_opt(s: &Option<String>) -> (r: Option<String>)
    ensures
        r == *s,
{
    match s {
        Some(t) => Some(t.clone()),
        None => None,
    }
}

fn copy_raw(raw: &AnnouncementTipRaw) -> (r: AnnouncementTipRaw)
    ensures
        r == *raw,
{
    AnnouncementTipRaw {
        content: raw.content.clone(),
        from_date: copy_opt(&raw.from_date),
        to_date: copy_opt(&raw.to_date),
        version_regex: copy_opt(&raw.version_regex),
        target_app: copy_opt(&raw.target_app),
    }
}

fn read_day(d: &Option<String>) -> (r: Result<Option<i32>, ()>)
    ensures
        r is Ok == date_reads(*d),
        r is Ok ==> match *d {
            Some(s) => r->Ok_0 is Some && day_of(s@, "%Y-%m-%d"@) == Some(r->Ok_0->Some_0 as int),
            None => r->Ok_0 is None,
        },
{
    match d {
        Some(s) => match parse_day(s.as_str(), "%Y-%m-%d") {
            Some(day) => Ok(Some(day)),
            None => Err(()),
        },
        None => Ok(None),
    }
}

/// Whether a read day is what an optional `YYYY-MM-DD` date gives.
pub open spec fn from_day_ok(day: Option<i32>, d: Option<String>) -> bool {
    match d {
        Some(s) => day is Some && day_of(s@, "%Y-%m-%d"@) == Some(day->Some_0 as int),
        None => day is None,
    }
}

/// Whether a version satisfies an optional pattern.
pub open spec fn version_ok(p: Option<String>, version: Seq<char>) -> bool {
    match p {
        Some(pat) => pattern_matches(pat@, version),
        None => true,
    }
}

/// Whether day `today` lies in an entry's window `[from_date, to_date)`.
pub open spec fn window_ok(raw: AnnouncementTipRaw, today: i32) -> bool {
    &&& match raw.from_date {
        Some(s) => day_of(s@, "%Y-%m-%d"@)->Some_0 <= today,
        None => true,
    }
    &&& match raw.to_date {
        Some(s) => today < day_of(s@, "%Y-%m-%d"@)->Some_0,
        None => true,
    }
}

/// Whether an entry applies: it reads, its pattern matches the version,
/// today lies in its window, and it targets the CLI (the default).
pub open spec fn tip_applies(raw: AnnouncementTipRaw, version: Seq<char>, today: i32) -> bool {
    &&& raw_readable(raw)
    &&& version_ok(raw.version_regex, version)
    &&& window_ok(raw, today)
    &&& lower_of(
        match raw.target_app {
            Some(t) => t@,
            None => "cli"@,
        },
    ) == "cli"@
}

/// The trimmed content of the last entry that applies.
pub open spec fn announcement_choice(raws: Seq<AnnouncementTipRaw>, version: Seq<char>, today: i32) -> Option<
    Seq<char>,
>
    decreases raws.len(),
{
    if raws.len() == 0 {
        None
    } else if tip_applies(raws.last(), version, today) {
        Some(trimmed(raws.last().content@))
    } else {
        announcement_choice(raws.drop_last(), version, today)
    }
}

impl AnnouncementTip {
    /// Reads an announcement; `None` where it cannot be read. The content
    /// is trimmed and the target app, `cli` by default, lowercased.
    pub fn from_raw(raw: AnnouncementTipRaw) -> (r: Option<AnnouncementTip>)
        ensures
            r is Some <==> raw_readable(raw),
            r is Some ==> r->Some_0.content@ == trimmed(raw.content@),
            r is Some ==> r->Some_0.version_regex == raw.version_regex,
            r is Some ==> r->Some_0.wf(),
            r is Some ==> from_day_ok(r->Some_0.from_day, raw.from_date),
            r is Some ==> from_day_ok(r->Some_0.to_day, raw.to_date),
            r is Some ==> r->Some_0.target_app@ == lower_of(
                match raw.target_app {
                    Some(t) => t@,
                    None => "cli"@,
                },
            ),
    {
        let content = trim_text(raw.content.as_str());
        if content.unicode_len() == 0 {
            return None;
        }
        let from_day = match read_day(&raw.from_date) {
            Ok(d) => d,
            Err(()) => {
                return None;
            },
        };
        let to_day = match read_day(&raw.to_date) {
            Ok(d) => d,
            Err(()) => {
                return None;
            },
        };
        if let Some(p) = &raw.version_regex {
            if !compile_pattern(p.as_str()) {
                return None;
            }
        }
        let version_regex = copy_opt(&raw.version_regex);
        let app = match &raw.target_app {
            Some(t) => lowercase(t.as_str()),
            None => lowercase("cli"),
        };
        Some(AnnouncementTip { content, from_day, to_day, version_regex, target_app: app })
    }

    /// Its pattern, where it has one, is valid.
    pub open spec fn wf(&self) -> bool {
        self.version_regex is Some ==> pattern_compiles(self.version_regex->Some_0@)
    }

    /// Whether the announcement applies to `version`: always, where it has
    /// no pattern, else where its pattern matches.
    pub fn version_matches(&self, version: &str) -> (r: bool)
        requires
            self.wf(),
        ensures
            r == version_ok(self.version_regex, version@),
    {
        match &self.version_regex {
            Some(p) => pattern_is_match(p.as_str(), version),
            None => true,
        }
    }

    /// Whether day `today` lies in the announcement's window: on or after
    /// its first day and before its end day.
    pub fn date_matches(&self, today: i32) -> (r: bool)
        ensures
            r == ((self.from_day is None || self.from_day->Some_0 <= today) && (self.to_day is None
                || today < self.to_day->Some_0)),
    {
        if let Some(from) = self.from_day {
            if today < from {
                return false;
            }
        }
        if let Some(to) = self.to_day {
            if today >= to {
                return false;
            }
        }
        true
    }
}

/// The content of the last applicable candidate.
pub open spec fn last_applicable(c: Seq<(String, bool)>) -> Option<Seq<char>>
    decreases c.len(),
{
    if c.len() == 0 {
        None
    } else if c.last().1 {
        Some(c.last().0@)
    } else {
        last_applicable(c.drop_last())
    }
}

/// Picks the content of the last applicable candidate.
pub fn pick_last_applicable(candidates: Vec<(String, bool)>) -> (r: Option<String>)
    ensures
        match last_applicable(candidates@) {
            Some(c) => r is Some && r->Some_0@ == c,
            None => r is None,
        },
{
    let ghost all = candidates@;
    let mut k = candidates.len();
    let mut rest = candidates;
    assert(all.subrange(0, k as int) =~= all);
    while k > 0
        invariant
            all == candidates@,
            k <= all.len(),
            rest@ == all.subrange(0, k as int),
            last_applicable(all) == last_applicable(all.subrange(0, k as int)),
        decreases k,
    {
        let item = rest.pop().unwrap();
        assert(item == all[k - 1]);
        assert(all.subrange(0, k as int).drop_last() =~= all.subrange(0, k as int - 1));
        assert(all.subrange(0, k as int).last() == item);
        let (content, applicable) = item;
        if applicable {
            return Some(content);
        }
        k = k - 1;
    }
    None
}

/// The last announcement that can be read, applies to `version` and to
/// day `today`, and targets the CLI.
pub fn select_announcement(raws: Vec<AnnouncementTipRaw>, version: &str, today: i32) -> (r: Option<
    String,
>)
    ensures
        match announcement_choice(raws@, version@, today) {
            Some(c) => r is Some && r->Some_0@ == c,
            None => r is None,
        },
{
    let mut candidates: Vec<(String, bool)> = Vec::new();
    let mut i: usize = 0;
    while i < raws.len()
        invariant
            i <= raws@.len(),
            candidates@.len() == i,
            forall|k: int|
                0 <= k < i ==> #[trigger] candidates@[k].1 == tip_applies(raws@[k], version@, today),
            forall|k: int|
                0 <= k < i && #[trigger] candidates@[k].1 ==> candidates@[k].0@ == trimmed(
                    raws@[k].content@,
                ),
        decreases raws.len() - i,
    {
        let raw = copy_raw(&raws[i]);
        match AnnouncementTip::from_raw(raw) {
            Some(tip) => {
                let applicable = tip.version_matches(version) && tip.date_matches(today) && same_text(
                    tip.target_app.as_str(),
                    "cli",
                );
                candidates.push((tip.content, applicable));
            },
            None => {
                candidates.push((String::new(), false));
            },
        }
        i = i + 1;
    }
    let ghost c = candidates@;
    let r = pick_last_applicable(candidates);
    proof {
        lemma_choice_is_last_applicable(c, raws@, version@, today);
    }
    r
}

proof fn lemma_choice_is_last_applicable(
    c: Seq<(String, bool)>,
    raws: Seq<AnnouncementTipRaw>,
    version: Seq<char>,
    today: i32,
)
    requires
        c.len() == raws.len(),
        forall|k: int| 0 <= k < c.len() ==> #[trigger] c[k].1 == tip_applies(raws[k], version, today),
        forall|k: int| 0 <= k < c.len() && #[trigger] c[k].1 ==> c[k].0@ == trimmed(raws[k].content@),
    ensures
        last_applicable(c) == announcement_choice(raws, version, today),
    decreases c.len(),
{
    if c.len() > 0 {
        let n = c.len() - 1;
        assert(c[n].1 == tip_applies(raws[n], version, today));
        if !c[n].1 {
            lemma_choice_is_last_applicable(c.drop_last(), raws.drop_last(), version, today);
        }
    }
}

/// The announcement to show, from the announcements fetched in the
/// background: nothing while the fetch has not finished (or failed), else
/// the last applicable one.
pub fn fetch_announcement_tip(fetched: Option<Vec<AnnouncementTipRaw>>, version: &str, today: i32) -> (r:
    Option<String>)
    ensures
        fetched is None ==> r is None,
        fetched is Some ==> match announcement_choice(fetched->Some_0@, version@, today) {
            Some(c) => r is Some && r->Some_0@ == c,
            None => r is None,
        },
{
    match fetched {
        Some(raws) => select_announcement(raws, version, today),
        None => None,
    }
}

} // verus!
