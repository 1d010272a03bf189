use zeroclaw::integrations::{
    category_matches, count_with_status, entries_in, first_named, handle_command, is_selected,
    list_integrations, lowered_names, setup_hints, show_integration_info, IntegrationCategory,
    IntegrationCommands, IntegrationEntry, IntegrationReport, IntegrationStatus,
};

fn entry(
    name: &'static str,
    description: &'static str,
    category: IntegrationCategory,
    status: IntegrationStatus,
) -> IntegrationEntry {
    IntegrationEntry { name, description, category, status }
}

fn catalogue() -> Vec<IntegrationEntry> {
    vec![
        entry("Telegram", "Bot API", IntegrationCategory::Chat, IntegrationStatus::Active),
        entry("OpenRouter", "200+ models", IntegrationCategory::AiModel, IntegrationStatus::Active),
        entry("Discord", "Servers and DMs", IntegrationCategory::Chat, IntegrationStatus::Available),
        entry("Spotify", "Playback", IntegrationCategory::MusicAudio, IntegrationStatus::ComingSoon),
        entry("Ollama", "Local models", IntegrationCategory::AiModel, IntegrationStatus::Available),
        entry("WhatsApp", "QR pairing", IntegrationCategory::Chat, IntegrationStatus::ComingSoon),
        entry("Cron", "Scheduled tasks", IntegrationCategory::ToolsAutomation, IntegrationStatus::Available),
    ]
}

fn names(entries: &[IntegrationEntry]) -> Vec<&'static str> {
    entries.iter().map(|e| e.name).collect()
}

#[test]
fn every_category_has_its_heading() {
    assert_eq!(IntegrationCategory::Chat.label(), "Chat Providers");
    assert_eq!(IntegrationCategory::AiModel.label(), "AI Models");
    assert_eq!(IntegrationCategory::Productivity.label(), "Productivity");
    assert_eq!(IntegrationCategory::MusicAudio.label(), "Music & Audio");
    assert_eq!(IntegrationCategory::SmartHome.label(), "Smart Home");
    assert_eq!(IntegrationCategory::ToolsAutomation.label(), "Tools & Automation");
    assert_eq!(IntegrationCategory::MediaCreative.label(), "Media & Creative");
    assert_eq!(IntegrationCategory::Social.label(), "Social");
    assert_eq!(IntegrationCategory::Platform.label(), "Platforms");
}

#[test]
fn all_categories_come_in_their_order() {
    assert_eq!(
        IntegrationCategory::all(),
        &[
            IntegrationCategory::Chat,
            IntegrationCategory::AiModel,
            IntegrationCategory::Productivity,
            IntegrationCategory::MusicAudio,
            IntegrationCategory::SmartHome,
            IntegrationCategory::ToolsAutomation,
            IntegrationCategory::MediaCreative,
            IntegrationCategory::Social,
            IntegrationCategory::Platform,
        ]
    );
}

#[test]
fn every_status_has_its_words() {
    assert_eq!(IntegrationStatus::Active.word(), "active");
    assert_eq!(IntegrationStatus::Available.word(), "available");
    assert_eq!(IntegrationStatus::ComingSoon.word(), "coming soon");
    assert_eq!(IntegrationStatus::Active.label(), "Active");
    assert_eq!(IntegrationStatus::Available.label(), "Available");
    assert_eq!(IntegrationStatus::ComingSoon.label(), "Coming Soon");
    assert_ne!(IntegrationStatus::Active.icon(), IntegrationStatus::Available.icon());
    assert_ne!(IntegrationStatus::Active.icon(), IntegrationStatus::ComingSoon.icon());
    assert_ne!(IntegrationStatus::Available.icon(), IntegrationStatus::ComingSoon.icon());
}

#[test]
fn a_list_without_a_filter_shows_every_category_that_has_entries() {
    let listing = list_integrations(&catalogue(), None);
    let shown: Vec<(IntegrationCategory, Vec<&'static str>)> =
        listing.sections.iter().map(|s| (s.category, names(&s.entries))).collect();
    assert_eq!(
        shown,
        vec![
            (IntegrationCategory::Chat, vec!["Telegram", "Discord", "WhatsApp"]),
            (IntegrationCategory::AiModel, vec!["OpenRouter", "Ollama"]),
            (IntegrationCategory::MusicAudio, vec!["Spotify"]),
            (IntegrationCategory::ToolsAutomation, vec!["Cron"]),
        ]
    );
    assert_eq!(listing.active, 2);
    assert_eq!(listing.available, 3);
    assert_eq!(listing.coming, 2);
    assert_eq!(listing.total, 7);
    assert_eq!(listing.totals_line(), "  7 integrations: 2 active, 3 available, 2 coming soon");
}

#[test]
fn a_filter_selects_categories_by_their_heading() {
    let listing = list_integrations(&catalogue(), Some("chat"));
    assert_eq!(listing.sections.len(), 1);
    assert_eq!(listing.sections[0].category, IntegrationCategory::Chat);
    assert_eq!(names(&listing.sections[0].entries), vec!["Telegram", "Discord", "WhatsApp"]);
    assert_eq!((listing.active, listing.available, listing.coming), (1, 1, 1));
    assert_eq!(listing.totals_line(), "  3 integrations: 1 active, 1 available, 1 coming soon");
}

#[test]
fn a_filter_is_matched_without_regard_to_case() {
    let listing = list_integrations(&catalogue(), Some("AI mod"));
    assert_eq!(listing.sections.len(), 1);
    assert_eq!(listing.sections[0].category, IntegrationCategory::AiModel);
    assert_eq!((listing.active, listing.available, listing.coming), (1, 1, 0));
    let listing = list_integrations(&catalogue(), Some("AUDIO"));
    assert_eq!(listing.sections.len(), 1);
    assert_eq!(listing.sections[0].category, IntegrationCategory::MusicAudio);
}

#[test]
fn a_filter_may_select_several_categories_or_none() {
    let listing = list_integrations(&catalogue(), Some("&"));
    let categories: Vec<IntegrationCategory> = listing.sections.iter().map(|s| s.category).collect();
    assert_eq!(categories, vec![IntegrationCategory::MusicAudio, IntegrationCategory::ToolsAutomation]);
    assert_eq!(listing.total, 2);
    let listing = list_integrations(&catalogue(), Some("nothing like this"));
    assert!(listing.sections.is_empty());
    assert_eq!(listing.totals_line(), "  0 integrations: 0 active, 0 available, 0 coming soon");
    let listing = list_integrations(&catalogue(), Some(""));
    assert_eq!(listing.total, 7);
}

#[test]
fn a_selected_category_without_entries_is_not_shown() {
    let listing = list_integrations(&catalogue(), Some("smart"));
    assert!(listing.sections.is_empty());
    let listing = list_integrations(&Vec::new(), None);
    assert!(listing.sections.is_empty());
    assert_eq!(listing.total, 0);
}

#[test]
fn headings_and_filters_are_compared_in_lower_case() {
    assert!(is_selected(IntegrationCategory::Chat, None));
    assert!(is_selected(IntegrationCategory::Chat, Some("PROVIDERS")));
    assert!(is_selected(IntegrationCategory::MediaCreative, Some("Media & Creative")));
    assert!(!is_selected(IntegrationCategory::Social, Some("media")));
    assert!(category_matches("chat providers", "chat"));
    assert!(!category_matches("chat providers", "Chat"));
}

#[test]
fn entries_are_picked_and_counted() {
    let all = catalogue();
    let chat = entries_in(&all, IntegrationCategory::Chat);
    assert_eq!(names(&chat), vec!["Telegram", "Discord", "WhatsApp"]);
    assert!(entries_in(&all, IntegrationCategory::Platform).is_empty());
    assert_eq!(count_with_status(&all, IntegrationStatus::Active), 2);
    assert_eq!(count_with_status(&all, IntegrationStatus::Available), 3);
    assert_eq!(count_with_status(&all, IntegrationStatus::ComingSoon), 2);
    assert_eq!(count_with_status(&chat, IntegrationStatus::Active), 1);
}

#[test]
fn the_details_of_an_integration_are_found_by_name() {
    let info = show_integration_info(&catalogue(), "Telegram").unwrap();
    assert_eq!(info.entry.name, "Telegram");
    assert_eq!(info.entry.description, "Bot API");
    assert_eq!(info.category, "Chat Providers");
    assert_eq!(info.status, "Active");
    assert_eq!(info.icon, IntegrationStatus::Active.icon());
    assert_eq!(
        info.setup,
        vec![
            "  Setup:",
            "    1. Message @BotFather on Telegram",
            "    2. Create a bot and copy the token",
            "    3. Run: zeroclaw onboard",
            "    4. Start: zeroclaw channel start",
        ]
    );
}

#[test]
fn a_name_is_matched_without_regard_to_case() {
    for asked in ["telegram", "TELEGRAM", "tElEgRaM"] {
        let info = show_integration_info(&catalogue(), asked).unwrap();
        assert_eq!(info.entry.name, "Telegram");
    }
    let info = show_integration_info(&catalogue(), "OLLAMA").unwrap();
    assert_eq!(info.entry.name, "Ollama");
    assert_eq!(info.status, "Available");
    assert_eq!(info.category, "AI Models");
    assert_eq!(info.setup.len(), 4);
    assert_eq!(info.setup[3], "    3. Set provider to 'ollama' in config.toml");
}

#[test]
fn the_first_of_two_entries_of_one_name_is_shown() {
    let mut twice = catalogue();
    twice.push(entry("TELEGRAM", "another", IntegrationCategory::Social, IntegrationStatus::ComingSoon));
    let info = show_integration_info(&twice, "TeleGram").unwrap();
    assert_eq!(info.entry.description, "Bot API");
}

#[test]
fn an_unknown_name_is_an_error() {
    let error = show_integration_info(&catalogue(), "Teleport").unwrap_err();
    assert_eq!(error.name, "Teleport");
    assert_eq!(
        error.message(),
        "Unknown integration: Teleport. Run `zeroclaw integrations list` to see all."
    );
    assert!(show_integration_info(&Vec::new(), "Telegram").is_err());
    assert!(show_integration_info(&catalogue(), "Telegra").is_err());
    assert!(show_integration_info(&catalogue(), " Telegram").is_err());
}

#[test]
fn an_integration_to_come_says_so() {
    let info = show_integration_info(&catalogue(), "spotify").unwrap();
    assert_eq!(info.status, "Coming Soon");
    assert_eq!(
        info.setup,
        vec![
            "  This integration is planned. Stay tuned!",
            "  Track progress: https://github.com/theonlyhennygod/zeroclaw",
        ]
    );
    assert!(setup_hints("Spotify", IntegrationStatus::Available).is_empty());
    assert!(setup_hints("Spotify", IntegrationStatus::Active).is_empty());
}

#[test]
fn setup_lines_go_by_the_exact_name() {
    assert_eq!(setup_hints("Discord", IntegrationStatus::Available).len(), 5);
    assert_eq!(setup_hints("Slack", IntegrationStatus::Available).len(), 4);
    assert_eq!(setup_hints("OpenRouter", IntegrationStatus::Active)[3], "    Access 200+ models with one key.");
    assert_eq!(setup_hints("iMessage", IntegrationStatus::Available)[0], "  Setup (macOS only):");
    assert_eq!(
        setup_hints("GitHub", IntegrationStatus::ComingSoon)[2],
        "    2. Add to config: [integrations.github] token = \"ghp_...\""
    );
    assert_eq!(setup_hints("Browser", IntegrationStatus::Available)[0], "  Built-in:");
    assert_eq!(setup_hints("Cron", IntegrationStatus::Available)[2], "    Run: zeroclaw cron list");
    assert_eq!(setup_hints("Webhooks", IntegrationStatus::Available)[2], "    Run: zeroclaw gateway");
    assert!(setup_hints("telegram", IntegrationStatus::Available).is_empty());
    assert_eq!(setup_hints("telegram", IntegrationStatus::ComingSoon).len(), 2);
    assert_eq!(setup_hints("Telegram", IntegrationStatus::ComingSoon).len(), 5);
}

#[test]
fn a_command_is_answered_with_a_list_or_with_details() {
    let all = catalogue();
    match handle_command(IntegrationCommands::List { category: Some("Chat".to_string()) }, &all) {
        Ok(IntegrationReport::Listing(listing)) => {
            assert_eq!(listing.sections.len(), 1);
            assert_eq!(listing.total, 3);
        }
        other => panic!("expected a list, got {:?}", other),
    }
    match handle_command(IntegrationCommands::List { category: None }, &all) {
        Ok(IntegrationReport::Listing(listing)) => assert_eq!(listing.total, 7),
        other => panic!("expected a list, got {:?}", other),
    }
    match handle_command(IntegrationCommands::Info { name: "cron".to_string() }, &all) {
        Ok(IntegrationReport::Info(info)) => {
            assert_eq!(info.entry.name, "Cron");
            assert_eq!(info.setup[1], "    Schedule tasks in ~/.zeroclaw/workspace/cron/");
        }
        other => panic!("expected details, got {:?}", other),
    }
    match handle_command(IntegrationCommands::Info { name: "nope".to_string() }, &all) {
        Err(error) => assert_eq!(error.name, "nope"),
        other => panic!("expected an error, got {:?}", other),
    }
}

#[test]
fn the_first_of_the_names_that_is_the_one_asked_for_is_found() {
    let lowered: Vec<String> = ["telegram", "discord", "ollama", "discord"].iter().map(|s| s.to_string()).collect();
    assert_eq!(first_named(&lowered, "telegram"), Some(0));
    assert_eq!(first_named(&lowered, "discord"), Some(1));
    assert_eq!(first_named(&lowered, "ollama"), Some(2));
    assert_eq!(first_named(&lowered, "Ollama"), None);
    assert_eq!(first_named(&lowered, "olla"), None);
    assert_eq!(first_named(&lowered, "ollama "), None);
    assert_eq!(first_named(&lowered, ""), None);
    assert_eq!(first_named(&Vec::new(), "telegram"), None);
    let with_empty = vec![String::new(), "x".to_string()];
    assert_eq!(first_named(&with_empty, ""), Some(0));
}

#[test]
fn the_names_of_a_catalogue_are_put_in_lower_case() {
    assert_eq!(
        lowered_names(&catalogue()),
        vec!["telegram", "openrouter", "discord", "spotify", "ollama", "whatsapp", "cron"]
    );
    assert!(lowered_names(&Vec::new()).is_empty());
    let odd = vec![entry("ÄÖÜ Straße", "", IntegrationCategory::Social, IntegrationStatus::Available)];
    assert_eq!(lowered_names(&odd), vec!["äöü straße"]);
}
