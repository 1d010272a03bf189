//! The catalogue of integrations: what there is, by category, and how far each
//! one has come.
//!
//! The catalogue is handed in as a list of entries. The functions here select
//! and count; they print nothing.

use crate::decimal::{digits_of, push_digits};
use crate::text::{contains, contains_text, lowercase, same_text, to_lowercase};
use vstd::prelude::*;
use vstd::string::StringExecFns;

verus! {

/// Integration status
#[derive(Debug, Clone, Copy, PartialEq, Eq, Structural)]
pub enum IntegrationStatus {
    /// Fully implemented and ready to use
    Available,
    /// Configured and active
    Active,
    /// Planned but not yet implemented
    ComingSoon,
}

/// Integration category
#[derive(Debug, Clone, Copy, PartialEq, Eq, Structural)]
pub enum IntegrationCategory {
    Chat,
    AiModel,
    Productivity,
    MusicAudio,
    SmartHome,
    ToolsAutomation,
    MediaCreative,
    Social,
    Platform,
}

impl IntegrationStatus {
    /// The sign shown before an integration of this status.
    pub open spec fn icon_text(self) -> Seq<char> {
        match self {
            IntegrationStatus::Active => "âœ…"@,
            IntegrationStatus::Available => "âšª"@,
            IntegrationStatus::ComingSoon => "ðŸ”œ"@,
        }
    }

    /// The status in words, as a list shows it.
    pub open spec fn word_text(self) -> Seq<char> {
        match self {
            IntegrationStatus::Active => "active"@,
            IntegrationStatus::Available => "available"@,
            IntegrationStatus::ComingSoon => "coming soon"@,
        }
    }

    /// The status in words, as the details of one integration show it.
    pub open spec fn label_text(self) -> Seq<char> {
        match self {
            IntegrationStatus::Active => "Active"@,
            IntegrationStatus::Available => "Available"@,
            IntegrationStatus::ComingSoon => "Coming Soon"@,
        }
    }

    /// The sign shown before an integration of this status.
    pub fn icon(self) -> (r: &'static str)
        ensures
            r@ == self.icon_text(),
    {
        match self {
            IntegrationStatus::Active => "âœ…",
            IntegrationStatus::Available => "âšª",
            IntegrationStatus::ComingSoon => "ðŸ”œ",
        }
    }

    /// The status in words, as a list shows it.
    pub fn word(self) -> (r: &'static str)
        ensures
            r@ == self.word_text(),
    {
        match self {
            IntegrationStatus::Active => "active",
            IntegrationStatus::Available => "available",
            IntegrationStatus::ComingSoon => "coming soon",
        }
    }

    /// The status in words, as the details of one integration show it.
    pub fn label(self) -> (r: &'static str)
        ensures
            r@ == self.label_text(),
    {
        match self {
            IntegrationStatus::Active => "Active",
            IntegrationStatus::Available => "Available",
            IntegrationStatus::ComingSoon => "Coming Soon",
        }
    }
}

impl IntegrationCategory {
    /// The heading of the category.
    pub open spec fn label_text(self) -> Seq<char> {
        match self {
            Self::Chat => "Chat Providers"@,
            Self::AiModel => "AI Models"@,
            Self::Productivity => "Productivity"@,
            Self::MusicAudio => "Music & Audio"@,
            Self::SmartHome => "Smart Home"@,
            Self::ToolsAutomation => "Tools & Automation"@,
            Self::MediaCreative => "Media & Creative"@,
            Self::Social => "Social"@,
            Self::Platform => "Platforms"@,
        }
    }

    /// All categories, in the order in which a list shows them.
    pub open spec fn every() -> Seq<IntegrationCategory> {
        seq![
            Self::Chat,
            Self::AiModel,
            Self::Productivity,
            Self::MusicAudio,
            Self::SmartHome,
            Self::ToolsAutomation,
            Self::MediaCreative,
            Self::Social,
            Self::Platform,
        ]
    }

    /// The place of the category in `every()`.
    pub open spec fn rank(self) -> int {
        match self {
            Self::Chat => 0,
            Self::AiModel => 1,
            Self::Productivity => 2,
            Self::MusicAudio => 3,
            Self::SmartHome => 4,
            Self::ToolsAutomation => 5,
            Self::MediaCreative => 6,
            Self::Social => 7,
            Self::Platform => 8,
        }
    }

    /// The heading of the category.
    pub fn label(self) -> (r: &'static str)
        ensures
            r@ == self.label_text(),
    {
        match self {
            Self::Chat => "Chat Providers",
            Self::AiModel => "AI Models",
            Self::Productivity => "Productivity",
            Self::MusicAudio => "Music & Audio",
            Self::SmartHome => "Smart Home",
            Self::ToolsAutomation => "Tools & Automation",
            Self::MediaCreative => "Media & Creative",
            Self::Social => "Social",
            Self::Platform => "Platforms",
        }
    }

    /// All categories, in the order in which a list shows them.
    pub fn all() -> (r: &'static [Self])
        ensures
            r@ == Self::every(),
    {
        let r: &'static [Self] = &[
            Self::Chat,
            Self::AiModel,
            Self::Productivity,
            Self::MusicAudio,
            Self::SmartHome,
            Self::ToolsAutomation,
            Self::MediaCreative,
            Self::Social,
            Self::Platform,
        ];
        assert(r@ =~= Self::every());
        r
    }
}

/// A registered integration, with the status it has under the configuration
/// in force.
#[derive(Debug, Clone, Copy)]
pub struct IntegrationEntry {
    pub name: &'static str,
    pub description: &'static str,
    pub category: IntegrationCategory,
    pub status: IntegrationStatus,
}

/// What is asked of the catalogue.
#[derive(Debug)]
pub enum IntegrationCommands {
    /// List all integrations and their status, those of the categories whose
    /// heading holds `category` if one is given
    List { category: Option<String> },
    /// Show details about a specific integration
    Info { name: String },
}

/// The texts of a list of lines.
pub open spec fn texts(lines: Seq<&'static str>) -> Seq<Seq<char>> {
    lines.map_values(|line: &'static str| line@)
}

/// The lines that say how an integration is set up, by its name; for one
/// without such lines, a note if it is still to come.
pub open spec fn setup_lines(name: Seq<char>, status: IntegrationStatus) -> Seq<Seq<char>> {
    if name == "Telegram"@ {
        seq![
            "  Setup:"@,
            "    1. Message @BotFather on Telegram"@,
            "    2. Create a bot and copy the token"@,
            "    3. Run: zeroclaw onboard"@,
            "    4. Start: zeroclaw channel start"@,
        ]
    } else if name == "Discord"@ {
        seq![
            "  Setup:"@,
            "    1. Go to https://discord.com/developers/applications"@,
            "    2. Create app â†’ Bot â†’ Copy token"@,
            "    3. Enable MESSAGE CONTENT intent"@,
            "    4. Run: zeroclaw onboard"@,
        ]
    } else if name == "Slack"@ {
        seq![
            "  Setup:"@,
            "    1. Go to https://api.slack.com/apps"@,
            "    2. Create app â†’ Bot Token Scopes â†’ Install"@,
            "    3. Run: zeroclaw onboard"@,
        ]
    } else if name == "OpenRouter"@ {
        seq![
            "  Setup:"@,
            "    1. Get API key at https://openrouter.ai/keys"@,
            "    2. Run: zeroclaw onboard"@,
            "    Access 200+ models with one key."@,
        ]
    } else if name == "Ollama"@ {
        seq![
            "  Setup:"@,
            "    1. Install: brew install ollama"@,
            "    2. Pull a model: ollama pull llama3"@,
            "    3. Set provider to 'ollama' in config.toml"@,
        ]
    } else if name == "iMessage"@ {
        seq![
            "  Setup (macOS only):"@,
            "    Uses AppleScript bridge to send/receive iMessages."@,
            "    Requires Full Disk Access in System Settings â†’ Privacy."@,
        ]
    } else if name == "GitHub"@ {
        seq![
            "  Setup:"@,
            "    1. Create a personal access token at https://github.com/settings/tokens"@,
            "    2. Add to config: [integrations.github] token = \"ghp_...\""@,
        ]
    } else if name == "Browser"@ {
        seq![
            "  Built-in:"@,
            "    ZeroClaw can control Chrome/Chromium for web tasks."@,
            "    Uses headless browser automation."@,
        ]
    } else if name == "Cron"@ {
        seq![
            "  Built-in:"@,
            "    Schedule tasks in ~/.zeroclaw/workspace/cron/"@,
            "    Run: zeroclaw cron list"@,
        ]
    } else if name == "Webhooks"@ {
        seq![
            "  Built-in:"@,
            "    HTTP endpoint for external triggers."@,
            "    Run: zeroclaw gateway"@,
        ]
    } else if status == IntegrationStatus::ComingSoon {
        seq![
            "  This integration is planned. Stay tuned!"@,
            "  Track progress: https://github.com/theonlyhennygod/zeroclaw"@,
        ]
    } else {
        Seq::empty()
    }
}

/// The lines that say how the integration `name` is set up.
pub fn setup_hints(name: &str, status: IntegrationStatus) -> (lines: Vec<&'static str>)
    ensures
        texts(lines@) == setup_lines(name@, status),
{
    if same_text(name, "Telegram") {
        let lines = vec![
            "  Setup:",
            "    1. Message @BotFather on Telegram",
            "    2. Create a bot and copy the token",
            "    3. Run: zeroclaw onboard",
            "    4. Start: zeroclaw channel start",
        ];
        assert(texts(lines@) =~= setup_lines(name@, status));
        lines
    } else if same_text(name, "Discord") {
        let lines = vec![
            "  Setup:",
            "    1. Go to https://discord.com/developers/applications",
            "    2. Create app â†’ Bot â†’ Copy token",
            "    3. Enable MESSAGE CONTENT intent",
            "    4. Run: zeroclaw onboard",
        ];
        assert(texts(lines@) =~= setup_lines(name@, status));
        lines
    } else if same_text(name, "Slack") {
        let lines = vec![
            "  Setup:",
            "    1. Go to https://api.slack.com/apps",
            "    2. Create app â†’ Bot Token Scopes â†’ Install",
            "    3. Run: zeroclaw onboard",
        ];
        assert(texts(lines@) =~= setup_lines(name@, status));
        lines
    } else if same_text(name, "OpenRouter") {
        let lines = vec![
            "  Setup:",
            "    1. Get API key at https://openrouter.ai/keys",
            "    2. Run: zeroclaw onboard",
            "    Access 200+ models with one key.",
        ];
        assert(texts(lines@) =~= setup_lines(name@, status));
        lines
    } else if same_text(name, "Ollama") {
        let lines = vec![
            "  Setup:",
            "    1. Install: brew install ollama",
            "    2. Pull a model: ollama pull llama3",
            "    3. Set provider to 'ollama' in config.toml",
        ];
        assert(texts(lines@) =~= setup_lines(name@, status));
        lines
    } else if same_text(name, "iMessage") {
        let lines = vec![
            "  Setup (macOS only):",
            "    Uses AppleScript bridge to send/receive iMessages.",
            "    Requires Full Disk Access in System Settings â†’ Privacy.",
        ];
        assert(texts(lines@) =~= setup_lines(name@, status));
        lines
    } else if same_text(name, "GitHub") {
        let lines = vec![
            "  Setup:",
            "    1. Create a personal access token at https://github.com/settings/tokens",
            "    2. Add to config: [integrations.github] token = \"ghp_...\"",
        ];
        assert(texts(lines@) =~= setup_lines(name@, status));
        lines
    } else if same_text(name, "Browser") {
        let lines = vec![
            "  Built-in:",
            "    ZeroClaw can control Chrome/Chromium for web tasks.",
            "    Uses headless browser automation.",
        ];
        assert(texts(lines@) =~= setup_lines(name@, status));
        lines
    } else if same_text(name, "Cron") {
        let lines = vec![
            "  Built-in:",
            "    Schedule tasks in ~/.zeroclaw/workspace/cron/",
            "    Run: zeroclaw cron list",
        ];
        assert(texts(lines@) =~= setup_lines(name@, status));
        lines
    } else if same_text(name, "Webhooks") {
        let lines = vec![
            "  Built-in:",
            "    HTTP endpoint for external triggers.",
            "    Run: zeroclaw gateway",
        ];
        assert(texts(lines@) =~= setup_lines(name@, status));
        lines
    } else if status == IntegrationStatus::ComingSoon {
        let lines = vec![
            "  This integration is planned. Stay tuned!",
            "  Track progress: https://github.com/theonlyhennygod/zeroclaw",
        ];
        assert(texts(lines@) =~= setup_lines(name@, status));
        lines
    } else {
        let lines: Vec<&'static str> = Vec::new();
        assert(texts(lines@) =~= setup_lines(name@, status));
        lines
    }
}

/// Whether a list shows the category: every category without a filter, else
/// those whose heading, in lower case, holds the filter in lower case.
pub open spec fn selected(category: IntegrationCategory, filter: Option<Seq<char>>) -> bool {
    match filter {
        None => true,
        Some(text) => contains_text(lowercase(category.label_text()), lowercase(text)),
    }
}

/// The entries of one category, in the order of the catalogue.
pub open spec fn in_category(entries: Seq<IntegrationEntry>, category: IntegrationCategory) -> Seq<
    IntegrationEntry,
> {
    entries.filter(|e: IntegrationEntry| e.category == category)
}

/// How many of the entries have the status.
pub open spec fn count_status(entries: Seq<IntegrationEntry>, status: IntegrationStatus) -> nat
    decreases entries.len(),
{
    if entries.len() == 0 {
        0
    } else {
        count_status(entries.drop_last(), status) + (if entries.last().status == status {
            1nat
        } else {
            0nat
        })
    }
}

/// One category of a list with the entries shown under it.
#[derive(Debug)]
pub struct CategorySection {
    pub category: IntegrationCategory,
    pub entries: Vec<IntegrationEntry>,
}

/// What a `CategorySection` holds, as mathematical values.
pub ghost struct SectionView {
    pub category: IntegrationCategory,
    pub entries: Seq<IntegrationEntry>,
}

impl View for CategorySection {
    type V = SectionView;

    open spec fn view(&self) -> SectionView {
        SectionView { category: self.category, entries: self.entries@ }
    }
}

/// The views of a list of sections.
pub open spec fn section_views(sections: Seq<CategorySection>) -> Seq<SectionView> {
    sections.map_values(|s: CategorySection| s@)
}

/// The sections of a list for the first `k` categories: one for each
/// category that is selected and has an entry, in the order of the
/// categories, with the entries of that category.
pub open spec fn sections_upto(entries: Seq<IntegrationEntry>, filter: Option<Seq<char>>, k: int) -> Seq<
    SectionView,
>
    decreases k,
{
    if k <= 0 {
        Seq::empty()
    } else {
        let before = sections_upto(entries, filter, k - 1);
        let category = IntegrationCategory::every()[k - 1];
        let rows = in_category(entries, category);
        if selected(category, filter) && rows.len() > 0 {
            before.push(SectionView { category, entries: rows })
        } else {
            before
        }
    }
}

/// The sections of a list of the catalogue.
pub open spec fn listed(entries: Seq<IntegrationEntry>, filter: Option<Seq<char>>) -> Seq<
    SectionView,
> {
    sections_upto(entries, filter, 9)
}

/// How many entries of the status the sections show.
pub open spec fn tally(sections: Seq<SectionView>, status: IntegrationStatus) -> nat
    decreases sections.len(),
{
    if sections.len() == 0 {
        0
    } else {
        tally(sections.drop_last(), status) + count_status(sections.last().entries, status)
    }
}

/// How many entries the sections show.
pub open spec fn shown(sections: Seq<SectionView>) -> nat
    decreases sections.len(),
{
    if sections.len() == 0 {
        0
    } else {
        shown(sections.drop_last()) + sections.last().entries.len()
    }
}

/// A list of the catalogue: its sections, how many entries they show, and
/// how many of those have each status.
#[derive(Debug)]
pub struct IntegrationListing {
    pub sections: Vec<CategorySection>,
    pub total: usize,
    pub available: usize,
    pub active: usize,
    pub coming: usize,
}

/// The last line of a list: the totals in words.
pub open spec fn totals_text(total: nat, active: nat, available: nat, coming: nat) -> Seq<char> {
    "  "@ + digits_of(total) + " integrations: "@ + digits_of(active) + " active, "@ + digits_of(
        available,
    ) + " available, "@ + digits_of(coming) + " coming soon"@
}

impl IntegrationListing {
    /// The last line of the list: the totals in words.
    pub fn totals_line(&self) -> (line: String)
        ensures
            line@ == totals_text(
                self.total as nat,
                self.active as nat,
                self.available as nat,
                self.coming as nat,
            ),
    {
        let mut line = String::new();
        line.append("  ");
        push_digits(&mut line, self.total as u64);
        line.append(" integrations: ");
        push_digits(&mut line, self.active as u64);
        line.append(" active, ");
        push_digits(&mut line, self.available as u64);
        line.append(" available, ");
        push_digits(&mut line, self.coming as u64);
        line.append(" coming soon");
        line
    }
}

/// Whether a heading in lower case holds a filter in lower case.
pub fn category_matches(label_lower: &str, filter_lower: &str) -> (r: bool)
    ensures
        r == contains_text(label_lower@, filter_lower@),
{
    contains(label_lower, filter_lower)
}

/// Whether a list with the filter shows the category.
pub fn is_selected(category: IntegrationCategory, filter_category: Option<&str>) -> (r: bool)
    ensures
        r == selected(
            category,
            match filter_category {
                Some(text) => Some(text@),
                None => None,
            },
        ),
{
    match filter_category {
        None => true,
        Some(filter) => {
            let filter_lower = to_lowercase(filter);
            let cat_lower = to_lowercase(category.label());
            category_matches(cat_lower.as_str(), filter_lower.as_str())
        },
    }
}

/// The entries of `category`, in the order of the catalogue.
pub fn entries_in(entries: &Vec<IntegrationEntry>, category: IntegrationCategory) -> (rows: Vec<
    IntegrationEntry,
>)
    ensures
        rows@ == in_category(entries@, category),
{
    let mut rows: Vec<IntegrationEntry> = Vec::new();
    let mut i: usize = 0;
    proof {
        reveal(Seq::filter);
    }
    assert(entries@.take(0) == Seq::<IntegrationEntry>::empty());
    while i < entries.len()
        invariant
            i <= entries.len(),
            rows@ == in_category(entries@.take(i as int), category),
        decreases entries.len() - i,
    {
        proof {
            reveal(Seq::filter);
            let next = entries@.take(i + 1);
            assert(next.drop_last() == entries@.take(i as int));
            assert(next.last() == entries@[i as int]);
        }
        let entry = entries[i];
        if entry.category == category {
            rows.push(entry);
        }
        i = i + 1;
    }
    assert(entries@.take(entries.len() as int) == entries@);
    rows
}

/// How many of `rows` have the status.
pub fn count_with_status(rows: &Vec<IntegrationEntry>, status: IntegrationStatus) -> (n: usize)
    ensures
        n == count_status(rows@, status),
        n <= rows.len(),
{
    let mut n: usize = 0;
    let mut i: usize = 0;
    assert(rows@.take(0) == Seq::<IntegrationEntry>::empty());
    while i < rows.len()
        invariant
            i <= rows.len(),
            n <= i,
            n == count_status(rows@.take(i as int), status),
        decreases rows.len() - i,
    {
        proof {
            let next = rows@.take(i + 1);
            assert(next.drop_last() == rows@.take(i as int));
            assert(next.last() == rows@[i as int]);
        }
        if rows[i].status == status {
            n = n + 1;
        }
        i = i + 1;
    }
    assert(rows@.take(rows.len() as int) == rows@);
    n
}

/// The list of the catalogue: for each category that `filter_category`
/// selects and that has an entry, the entries of that category; and how many
/// of the entries shown are available, active and still to come.
pub fn list_integrations(entries: &Vec<IntegrationEntry>, filter_category: Option<&str>) -> (listing:
    IntegrationListing)
    ensures
        section_views(listing.sections@) == listed(
            entries@,
            match filter_category {
                Some(text) => Some(text@),
                None => None,
            },
        ),
        listing.available == tally(section_views(listing.sections@), IntegrationStatus::Available),
        listing.active == tally(section_views(listing.sections@), IntegrationStatus::Active),
        listing.coming == tally(section_views(listing.sections@), IntegrationStatus::ComingSoon),
        listing.total == shown(section_views(listing.sections@)),
        listing.total == listing.available + listing.active + listing.coming,
        listing.total <= entries.len(),
{
    let ghost filter: Option<Seq<char>> = match filter_category {
        Some(text) => Some(text@),
        None => None,
    };
    let categories = IntegrationCategory::all();
    let mut sections: Vec<CategorySection> = Vec::new();
    let mut available: usize = 0;
    let mut active: usize = 0;
    let mut coming: usize = 0;
    let mut k: usize = 0;
    assert(section_views(sections@) == Seq::<SectionView>::empty());
    while k < categories.len()
        invariant
            k <= categories.len(),
            categories@ == IntegrationCategory::every(),
            filter == match filter_category {
                Some(text) => Some(text@),
                None => None,
            },
            section_views(sections@) == sections_upto(entries@, filter, k as int),
            available == tally(section_views(sections@), IntegrationStatus::Available),
            active == tally(section_views(sections@), IntegrationStatus::Active),
            coming == tally(section_views(sections@), IntegrationStatus::ComingSoon),
            available + active + coming == shown(section_views(sections@)),
        decreases categories.len() - k,
    {
        let category = categories[k];
        proof {
            lemma_shown_bounded(entries@, filter, k as int + 1);
        }
        if is_selected(category, filter_category) {
            let rows = entries_in(entries, category);
            if rows.len() > 0 {
                let ghost before = section_views(sections@);
                let ghost section = SectionView { category, entries: rows@ };
                proof {
                    lemma_counts_add_up(rows@);
                    assert(before.push(section).drop_last() == before);
                    assert(category == IntegrationCategory::every()[k as int]);
                    assert(sections_upto(entries@, filter, k + 1) == before.push(section));
                    assert(shown(before.push(section)) == shown(before) + rows@.len());
                    assert(shown(before) + rows@.len() <= entries.len());
                }
                let a = count_with_status(&rows, IntegrationStatus::Available);
                let b = count_with_status(&rows, IntegrationStatus::Active);
                let c = count_with_status(&rows, IntegrationStatus::ComingSoon);
                available = available + a;
                active = active + b;
                coming = coming + c;
                sections.push(CategorySection { category, entries: rows });
                assert(section_views(sections@) == before.push(section));
            }
        }
        k = k + 1;
    }
    proof {
        assert(IntegrationCategory::every().len() == 9);
        lemma_shown_bounded(entries@, filter, 9);
        assert(available + active + coming <= entries.len());
    }
    let total = available + active + coming;
    IntegrationListing { sections, total, available, active, coming }
}

/// Every entry has one of the three statuses.
pub proof fn lemma_counts_add_up(entries: Seq<IntegrationEntry>)
    ensures
        count_status(entries, IntegrationStatus::Available) + count_status(
            entries,
            IntegrationStatus::Active,
        ) + count_status(entries, IntegrationStatus::ComingSoon) == entries.len(),
    decreases entries.len(),
{
    if entries.len() > 0 {
        lemma_counts_add_up(entries.drop_last());
    }
}

/// How many of the entries belong to one of the first `k` categories.
pub open spec fn ranked_below(entries: Seq<IntegrationEntry>, k: int) -> nat
    decreases entries.len(),
{
    if entries.len() == 0 {
        0
    } else {
        ranked_below(entries.drop_last(), k) + (if entries.last().category.rank() < k {
            1nat
        } else {
            0nat
        })
    }
}

/// The entries of the first `k + 1` categories are those of the first `k` and
/// those of the category of rank `k`.
proof fn lemma_ranked_below_step(entries: Seq<IntegrationEntry>, k: int)
    requires
        0 <= k < 9,
    ensures
        ranked_below(entries, k + 1) == ranked_below(entries, k) + in_category(
            entries,
            IntegrationCategory::every()[k],
        ).len(),
        ranked_below(entries, k) <= entries.len(),
        ranked_below(entries, 0) == 0,
    decreases entries.len(),
{
    reveal(Seq::filter);
    if entries.len() > 0 {
        lemma_ranked_below_step(entries.drop_last(), k);
        let category = IntegrationCategory::every()[k];
        assert(category.rank() == k);
        let last = entries.last();
        assert(last.category == category <==> last.category.rank() == k);
    }
}

/// A list shows no entry twice: the entries shown for the first `k`
/// categories are no more than the catalogue has in those categories.
pub proof fn lemma_shown_bounded(entries: Seq<IntegrationEntry>, filter: Option<Seq<char>>, k: int)
    requires
        0 <= k <= 9,
    ensures
        shown(sections_upto(entries, filter, k)) <= ranked_below(entries, k),
        ranked_below(entries, k) <= entries.len(),
    decreases k,
{
    if k > 0 {
        lemma_shown_bounded(entries, filter, k - 1);
        lemma_ranked_below_step(entries, k - 1);
        let before = sections_upto(entries, filter, k - 1);
        let category = IntegrationCategory::every()[k - 1];
        let rows = in_category(entries, category);
        if selected(category, filter) && rows.len() > 0 {
            let section = SectionView { category, entries: rows };
            assert(before.push(section).drop_last() == before);
        }
        if k < 9 {
            lemma_ranked_below_step(entries, k);
        } else {
            lemma_ranked_below_all(entries);
        }
    } else {
        lemma_ranked_below_step(entries, 0);
    }
}

proof fn lemma_ranked_below_all(entries: Seq<IntegrationEntry>)
    ensures
        ranked_below(entries, 9) <= entries.len(),
    decreases entries.len(),
{
    if entries.len() > 0 {
        lemma_ranked_below_all(entries.drop_last());
    }
}

/// No integration of the name asked for. `name` is the name as it was asked.
#[derive(Debug)]
pub struct UnknownIntegration {
    pub name: String,
}

/// The text that says that no integration has the name.
pub open spec fn unknown_integration_text(name: Seq<char>) -> Seq<char> {
    "Unknown integration: "@ + name + ". Run `zeroclaw integrations list` to see all."@
}

impl UnknownIntegration {
    /// The text of the error.
    pub fn message(&self) -> (r: String)
        ensures
            r@ == unknown_integration_text(self.name@),
    {
        let mut r = String::new();
        r.append("Unknown integration: ");
        r.append(self.name.as_str());
        r.append(". Run `zeroclaw integrations list` to see all.");
        r
    }
}

/// Whether the entry has the name, the case of letters apart.
pub open spec fn answers_to(entry: IntegrationEntry, name: Seq<char>) -> bool {
    lowercase(entry.name@) == lowercase(name)
}

/// The entry at `place` is the first that has the name, the case of letters
/// apart.
pub open spec fn first_answer(entries: Seq<IntegrationEntry>, name: Seq<char>, place: int) -> bool {
    &&& 0 <= place < entries.len()
    &&& answers_to(entries[place], name)
    &&& forall|j: int| 0 <= j < place ==> !answers_to(#[trigger] entries[j], name)
}

/// No entry has the name.
pub open spec fn no_answer(entries: Seq<IntegrationEntry>, name: Seq<char>) -> bool {
    forall|j: int| 0 <= j < entries.len() ==> !answers_to(#[trigger] entries[j], name)
}

/// The details of one integration.
#[derive(Debug)]
pub struct IntegrationInfo {
    pub entry: IntegrationEntry,
    /// The sign of its status.
    pub icon: &'static str,
    /// The heading of its category.
    pub category: &'static str,
    /// Its status in words.
    pub status: &'static str,
    /// How to set it up, line by line.
    pub setup: Vec<&'static str>,
}

/// What the details of `entry` hold.
pub open spec fn describes(info: IntegrationInfo, entry: IntegrationEntry) -> bool {
    &&& info.entry == entry
    &&& info.icon@ == entry.status.icon_text()
    &&& info.category@ == entry.category.label_text()
    &&& info.status@ == entry.status.label_text()
    &&& texts(info.setup@) == setup_lines(entry.name@, entry.status)
}

/// The place of the first of the texts that is `name_lower`, if one is.
/// The texts are names in lower case; so is `name_lower`.
pub fn first_named(lowered: &Vec<String>, name_lower: &str) -> (r: Option<usize>)
    ensures
        match r {
            Some(i) => i < lowered.len() && lowered@[i as int]@ == name_lower@ && forall|j: int|
                0 <= j < i ==> lowered@[j]@ != name_lower@,
            None => forall|j: int| 0 <= j < lowered.len() ==> lowered@[j]@ != name_lower@,
        },
{
    let mut i: usize = 0;
    while i < lowered.len()
        invariant
            i <= lowered.len(),
            forall|j: int| 0 <= j < i ==> lowered@[j]@ != name_lower@,
        decreases lowered.len() - i,
    {
        if same_text(lowered[i].as_str(), name_lower) {
            return Some(i);
        }
        i = i + 1;
    }
    None
}

/// The names of the entries in lower case, in the order of the catalogue.
pub fn lowered_names(entries: &Vec<IntegrationEntry>) -> (lowered: Vec<String>)
    ensures
        lowered.len() == entries.len(),
        forall|j: int|
            0 <= j < entries.len() ==> (#[trigger] lowered@[j])@ == lowercase(entries@[j].name@),
{
    let mut lowered: Vec<String> = Vec::new();
    let mut i: usize = 0;
    while i < entries.len()
        invariant
            i <= entries.len(),
            lowered.len() == i,
            forall|j: int| 0 <= j < i ==> (#[trigger] lowered@[j])@ == lowercase(entries@[j].name@),
        decreases entries.len() - i,
    {
        lowered.push(to_lowercase(entries[i].name));
        i = i + 1;
    }
    lowered
}

/// The details of the first integration that has the name, the case of
/// letters apart; an error if none has it.
pub fn show_integration_info(entries: &Vec<IntegrationEntry>, name: &str) -> (r: Result<
    IntegrationInfo,
    UnknownIntegration,
>)
    ensures
        match r {
            Ok(info) => exists|place: int|
                first_answer(entries@, name@, place) && describes(info, #[trigger] entries@[place]),
            Err(error) => no_answer(entries@, name@) && error.name@ == name@,
        },
{
    let name_lower = to_lowercase(name);
    let lowered = lowered_names(entries);
    match first_named(&lowered, name_lower.as_str()) {
        Some(i) => {
            let entry = entries[i];
            let info = IntegrationInfo {
                entry,
                icon: entry.status.icon(),
                category: entry.category.label(),
                status: entry.status.label(),
                setup: setup_hints(entry.name, entry.status),
            };
            assert(first_answer(entries@, name@, i as int)) by {
                assert(lowered@[i as int]@ == lowercase(entries@[i as int].name@));
                assert forall|j: int| 0 <= j < i implies !answers_to(
                    #[trigger] entries@[j],
                    name@,
                ) by {
                    assert(lowered@[j]@ == lowercase(entries@[j].name@));
                }
            }
            assert(describes(info, entries@[i as int]));
            Ok(info)
        },
        None => {
            assert(no_answer(entries@, name@)) by {
                assert forall|j: int| 0 <= j < entries.len() implies !answers_to(
                    #[trigger] entries@[j],
                    name@,
                ) by {
                    assert(lowered@[j]@ == lowercase(entries@[j].name@));
                }
            }
            Err(UnknownIntegration { name: name.to_owned() })
        },
    }
}

/// The answer to a command.
#[derive(Debug)]
pub enum IntegrationReport {
    Listing(IntegrationListing),
    Info(IntegrationInfo),
}

/// Handles a command on the catalogue: a list, or the details of one
/// integration.
pub fn handle_command(command: IntegrationCommands, entries: &Vec<IntegrationEntry>) -> (r: Result<
    IntegrationReport,
    UnknownIntegration,
>)
    ensures
        match command {
            IntegrationCommands::List { category } => {
                let filter = match category {
                    Some(text) => Some(text@),
                    None => None,
                };
                &&& r matches Ok(IntegrationReport::Listing(listing))
                &&& section_views(listing.sections@) == listed(entries@, filter)
                &&& listing.available == tally(
                    section_views(listing.sections@),
                    IntegrationStatus::Available,
                )
                &&& listing.active == tally(
                    section_views(listing.sections@),
                    IntegrationStatus::Active,
                )
                &&& listing.coming == tally(
                    section_views(listing.sections@),
                    IntegrationStatus::ComingSoon,
                )
                &&& listing.total == listing.available + listing.active + listing.coming
                &&& listing.total <= entries.len()
            },
            IntegrationCommands::Info { name } => match r {
                Ok(IntegrationReport::Info(info)) => exists|place: int|
                    first_answer(entries@, name@, place) && describes(
                        info,
                        #[trigger] entries@[place],
                    ),
                Ok(IntegrationReport::Listing(_)) => false,
                Err(error) => no_answer(entries@, name@) && error.name@ == name@,
            },
        },
{
    match command {
        IntegrationCommands::List { category } => {
            let listing = match &category {
                Some(text) => list_integrations(entries, Some(text.as_str())),
                None => list_integrations(entries, None),
            };
            Ok(IntegrationReport::Listing(listing))
        },
        IntegrationCommands::Info { name } => {
            match show_integration_info(entries, name.as_str()) {
                Ok(info) => Ok(IntegrationReport::Info(info)),
                Err(error) => Err(error),
            }
        },
    }
}

} // verus!
