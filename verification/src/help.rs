//! The help screen: its sections, their text, and scrolling through them.
use vstd::prelude::*;
use vstd::string::*;
use crate::input::Action;
use crate::screens::AppState;

verus! {

/// A section of the help screen.
#[derive(Debug, Clone, Copy, PartialEq, Eq, Structural)]
pub enum HelpSection {
    Overview,
    KeyboardShortcuts,
    LearningFeatures,
    DeckManagement,
    Settings,
    Troubleshooting,
    About,
}

/// The number of help sections.
pub const HELP_SECTIONS: usize = 7;

/// The lines a help screen shows at once.
pub const VISIBLE_LINES: usize = 20;

/// The position of a section in the tab order.
pub open spec fn section_index(s: HelpSection) -> nat {
    match s {
        HelpSection::Overview => 0,
        HelpSection::KeyboardShortcuts => 1,
        HelpSection::LearningFeatures => 2,
        HelpSection::DeckManagement => 3,
        HelpSection::Settings => 4,
        HelpSection::Troubleshooting => 5,
        HelpSection::About => 6,
    }
}

/// The section at a position of the tab order.
pub open spec fn section_at(i: nat) -> HelpSection {
    if i == 0 {
        HelpSection::Overview
    } else if i == 1 {
        HelpSection::KeyboardShortcuts
    } else if i == 2 {
        HelpSection::LearningFeatures
    } else if i == 3 {
        HelpSection::DeckManagement
    } else if i == 4 {
        HelpSection::Settings
    } else if i == 5 {
        HelpSection::Troubleshooting
    } else {
        HelpSection::About
    }
}

/// The title of a section.
pub open spec fn section_title(s: HelpSection) -> Seq<char> {
    match s {
        HelpSection::Overview => "Overview"@,
        HelpSection::KeyboardShortcuts => "Keyboard Shortcuts"@,
        HelpSection::LearningFeatures => "Learning Features"@,
        HelpSection::DeckManagement => "Deck Management"@,
        HelpSection::Settings => "Settings"@,
        HelpSection::Troubleshooting => "Troubleshooting"@,
        HelpSection::About => "About"@,
    }
}

/// The text of the Overview section, line by line.
pub open spec fn overview_text() -> Seq<Seq<char>> {
    seq![
        "AnkiTUI - Terminal-based Spaced Repetition"@,
        ""@,
        "AnkiTUI is a terminal-based spaced repetition learning system"@,
        "compatible with Anki's SM-2 algorithm."@,
        ""@,
        "Key Features:"@,
        "• Spaced repetition using SM-2 algorithm"@,
        "• Terminal-based interface for efficient learning"@,
        "• Support for cards, decks, and media"@,
        "• Detailed statistics and progress tracking"@,
        "• Customizable learning parameters"@,
        ""@,
        "Navigation:"@,
        "Use Tab/Shift+Tab to switch between help sections"@,
        "Use Up/Down arrows to scroll within sections"@,
        "Press Escape to return to the main menu"@,
        ""@,
        "Getting Started:"@,
        "1. Create or import decks of cards"@,
        "2. Start a review session from the main menu"@,
        "3. Rate cards as Again, Hard, Good, or Easy"@,
        "4. Monitor your progress in the statistics view"@,
    ]
}

/// The text of the Keyboard Shortcuts section, line by line.
pub open spec fn keyboard_shortcuts_text() -> Seq<Seq<char>> {
    seq![
        "Global Shortcuts"@,
        ""@,
        "Navigation:"@,
        "• Tab - Move to next item/section"@,
        "• Shift+Tab - Move to previous item/section"@,
        "• Up/Down - Navigate in lists"@,
        "• Left/Right - Navigate tabs or select options"@,
        "• Enter - Select/confirm action"@,
        "• Escape - Cancel/Go back"@,
        "• q - Quit (with confirmation)"@,
        ""@,
        "Main Menu:"@,
        "• 1-6 - Quick select menu items"@,
        "• Enter - Select menu item"@,
        ""@,
        "Card Review:"@,
        "• Space - Flip card to show answer"@,
        "• 1-4 - Rate card (Again, Hard, Good, Easy)"@,
        "• a - Rate as Again"@,
        "• h - Rate as Hard"@,
        "• g - Rate as Good"@,
        "• e - Rate as Easy"@,
        "• s - Pause/Bury card"@,
        "• d - Delete card"@,
        ""@,
        "Deck Management:"@,
        "• n - Create new deck"@,
        "• r - Rename deck"@,
        "• Del - Delete deck"@,
        "• i - Import cards"@,
        "• x - Export cards"@,
        ""@,
        "Search:"@,
        "• / - Start search"@,
        "• n - Find next result"@,
        "• p - Find previous result"@,
    ]
}

/// The text of the Learning Features section, line by line.
pub open spec fn learning_features_text() -> Seq<Seq<char>> {
    seq![
        "Learning Features"@,
        ""@,
        "Spaced Repetition System:"@,
        "AnkiTUI uses the SM-2 algorithm to optimize learning intervals"@,
        "based on your performance ratings."@,
        ""@,
        "Card Ratings:"@,
        "• Again (1): Reset interval to 1 day, increase ease factor penalty"@,
        "• Hard (2): Increase interval by 1.2x, slight ease factor decrease"@,
        "• Good (3): Increase interval based on current ease factor"@,
        "• Easy (4): Increase interval by 1.3x, increase ease factor"@,
        ""@,
        "Card States:"@,
        "• New: Cards not yet studied"@,
        "• Learning: Cards in initial learning phase"@,
        "• Review: Cards graduated to regular reviews"@,
        "• Relearning: Cards that were forgotten and are being relearned"@,
        ""@,
        "Learning Techniques:"@,
        "• Active Recall: Try to recall the answer before viewing"@,
        "• Spaced Repetition: Review at optimal intervals"@,
        "• Interleaving: Mix different topics for better retention"@,
        "• Elaboration: Connect new information to existing knowledge"@,
        ""@,
        "Study Tips:"@,
        "• Study consistently rather than cramming"@,
        "• Focus on difficult cards (rated Again or Hard)"@,
        "• Use image and sound attachments when possible"@,
        "• Create clear, unambiguous card questions"@,
        "• Review regularly to maintain momentum"@,
    ]
}

/// The text of the Deck Management section, line by line.
pub open spec fn deck_management_text() -> Seq<Seq<char>> {
    seq![
        "Deck Management"@,
        ""@,
        "Creating Decks:"@,
        "Select 'Deck Management' from the main menu, then choose"@,
        "'Create Deck' to start a new deck. Give it a descriptive name"@,
        "that reflects its content."@,
        ""@,
        "Card Creation:"@,
        "Cards support the following fields:"@,
        "• Front: The question or prompt"@,
        "• Back: The answer or explanation"@,
        "• Tags: Optional labels for organization"@,
        "• Media: Optional image/audio attachments"@,
        "• Custom fields: Additional data as needed"@,
        ""@,
        "Import/Export:"@,
        "AnkiTUI supports multiple formats:"@,
        "• CSV: Comma-separated values with headers"@,
        "• JSON: Structured data format"@,
        "• TOML: Human-readable configuration format"@,
        "• Anki APKG: Anki deck packages (experimental)"@,
        ""@,
        "Deck Organization:"@,
        "• Use descriptive names for decks"@,
        "• Tag cards for better searchability"@,
        "• Keep decks focused on specific topics"@,
        "• Consider splitting large decks into smaller ones"@,
        ""@,
        "Deck Statistics:"@,
        "Track your progress with detailed statistics:"@,
        "• Total cards and distribution by state"@,
        "• Learning progress and retention rates"@,
        "• Daily study patterns and consistency"@,
        "• Ease factor trends over time"@,
    ]
}

/// The text of the Settings section, line by line.
pub open spec fn settings_text() -> Seq<Seq<char>> {
    seq![
        "Settings Configuration"@,
        ""@,
        "Learning Limits:"@,
        "• Max New Cards: Daily limit for new cards (default: 20)"@,
        "• Max Review Cards: Daily limit for reviews (default: 100)"@,
        "• Day Start/End: Define your study day hours"@,
        ""@,
        "Theme & Display:"@,
        "• Color Theme: Choose from predefined themes"@,
        "  - Dark: Traditional terminal colors"@,
        "  - Light: Inverted colors for bright terminals"@,
        "  - Ocean: Blue-based color scheme"@,
        "  - Forest: Green-based nature theme"@,
        "  - Sunset: Warm red/orange tones"@,
        "  - Monochrome: Grayscale only"@,
        "• Interface style and animation preferences"@,
        ""@,
        "Keyboard Shortcuts:"@,
        "• Customize key bindings for all actions"@,
        "• Create personalized workflows"@,
        "• Override default shortcuts as needed"@,
        ""@,
        "Scheduling Algorithm:"@,
        "• Starting Ease Factor: Initial difficulty multiplier (default: 2.5)"@,
        "• Minimum Ease Factor: Floor for ease factor (default: 1.3)"@,
        "• Ease Factor Bonus: Reward for easy reviews (default: 0.1)"@,
        "• Interval Modifier: Global interval scaling (default: 1.0)"@,
        ""@,
        "Data Management:"@,
        "• Database location and backup settings"@,
        "• Media storage preferences"@,
        "• Sync and export configurations"@,
        ""@,
        "Advanced:"@,
        "• Performance tuning options"@,
        "• Debug and logging settings"@,
        "• Experimental features"@,
    ]
}

/// The text of the Troubleshooting section, line by line.
pub open spec fn troubleshooting_text() -> Seq<Seq<char>> {
    seq![
        "Troubleshooting"@,
        ""@,
        "Common Issues:"@,
        ""@,
        "Application Won't Start:"@,
        "• Check that terminal supports required features"@,
        "• Verify database file permissions"@,
        "• Try running with `RUST_LOG=debug` for detailed logs"@,
        ""@,
        "Cards Not Loading:"@,
        "• Ensure deck contains cards with valid format"@,
        "• Check that cards are not all buried or suspended"@,
        "• Verify scheduling parameters allow new cards"@,
        ""@,
        "Database Issues:"@,
        "• Corrupted database: Try creating a new one"@,
        "• Migration errors: Check disk space and permissions"@,
        "• Performance issues: Consider database optimization"@,
        ""@,
        "Display Problems:"@,
        "• Terminal too small: Resize to at least 80x24"@,
        "• Color issues: Check terminal color support"@,
        "• Unicode problems: Ensure UTF-8 encoding"@,
        ""@,
        "Performance:"@,
        "• Slow startup: Check database size and consider optimization"@,
        "• Lag during reviews: Disable animations if needed"@,
        "• Memory usage: Monitor for leaks in long sessions"@,
        ""@,
        "Getting Help:"@,
        "• Check the GitHub issues page"@,
        "• Provide error messages and system information"@,
        "• Include steps to reproduce the problem"@,
        "• Share relevant configuration files (sans sensitive data)"@,
    ]
}

/// The text of the About section, line by line.
pub open spec fn about_text() -> Seq<Seq<char>> {
    seq![
        "About AnkiTUI"@,
        ""@,
        "Version Information:"@,
        "AnkiTUI v0.1.0"@,
        "A modern terminal-based spaced repetition learning system"@,
        ""@,
        "Technology Stack:"@,
        "• Language: Rust"@,
        "• TUI Framework: ratatui"@,
        "• Database: SQLite with sqlx"@,
        "• Configuration: TOML"@,
        "• Async Runtime: tokio"@,
        ""@,
        "Algorithm:"@,
        "Implements the SM-2 spaced repetition algorithm,"@,
        "compatible with Anki and other popular SRS systems."@,
        ""@,
        "Design Philosophy:"@,
        "• Efficient keyboard-driven interface"@,
        "• Minimal distractions for focused learning"@,
        "• Extensible and maintainable codebase"@,
        "• Cross-platform compatibility"@,
        "• Privacy-focused local data storage"@,
        ""@,
        "License:"@,
        "MIT License - see LICENSE file for details"@,
        ""@,
        "Contributing:"@,
        "Contributions are welcome! Please see the CONTRIBUTING"@,
        "file for guidelines on how to participate in development."@,
        ""@,
        "Acknowledgments:"@,
        "• Anki team for the SM-2 algorithm and inspiration"@,
        "• ratatui developers for the excellent TUI framework"@,
        "• The Rust community for tools and libraries"@,
        ""@,
        "Support:"@,
        "For bug reports and feature requests, please visit:"@,
        "https://github.com/your-repo/ankitui/issues"@,
    ]
}

/// The text of a section, line by line.
pub open spec fn section_text(s: HelpSection) -> Seq<Seq<char>> {
    match s {
        HelpSection::Overview => overview_text(),
        HelpSection::KeyboardShortcuts => keyboard_shortcuts_text(),
        HelpSection::LearningFeatures => learning_features_text(),
        HelpSection::DeckManagement => deck_management_text(),
        HelpSection::Settings => settings_text(),
        HelpSection::Troubleshooting => troubleshooting_text(),
        HelpSection::About => about_text(),
    }
}

/// A help view in which the tab shows the open section and the text is not
/// scrolled past its last full page.
pub open spec fn help_consistent(section: HelpSection, tab: nat, offset: nat) -> bool {
    &&& tab == section_index(section)
    &&& (offset == 0 || offset + VISIBLE_LINES <= section_text(section).len())
}

/// The texts of a list of lines.
pub open spec fn lines_view(v: Seq<String>) -> Seq<Seq<char>> {
    v.map_values(|s: String| s@)
}

fn overview_lines() -> (v: Vec<String>)
    ensures
        lines_view(v@) == overview_text(),
{
    let mut v: Vec<String> = Vec::new();
    v.push(String::from_str("AnkiTUI - Terminal-based Spaced Repetition"));
    v.push(String::from_str(""));
    v.push(String::from_str("AnkiTUI is a terminal-based spaced repetition learning system"));
    v.push(String::from_str("compatible with Anki's SM-2 algorithm."));
    v.push(String::from_str(""));
    v.push(String::from_str("Key Features:"));
    v.push(String::from_str("• Spaced repetition using SM-2 algorithm"));
    v.push(String::from_str("• Terminal-based interface for efficient learning"));
    v.push(String::from_str("• Support for cards, decks, and media"));
    v.push(String::from_str("• Detailed statistics and progress tracking"));
    v.push(String::from_str("• Customizable learning parameters"));
    v.push(String::from_str(""));
    v.push(String::from_str("Navigation:"));
    v.push(String::from_str("Use Tab/Shift+Tab to switch between help sections"));
    v.push(String::from_str("Use Up/Down arrows to scroll within sections"));
    v.push(String::from_str("Press Escape to return to the main menu"));
    v.push(String::from_str(""));
    v.push(String::from_str("Getting Started:"));
    v.push(String::from_str("1. Create or import decks of cards"));
    v.push(String::from_str("2. Start a review session from the main menu"));
    v.push(String::from_str("3. Rate cards as Again, Hard, Good, or Easy"));
    v.push(String::from_str("4. Monitor your progress in the statistics view"));
    assert(lines_view(v@) =~= overview_text());
    v
}

fn keyboard_shortcuts_lines() -> (v: Vec<String>)
    ensures
        lines_view(v@) == keyboard_shortcuts_text(),
{
    let mut v: Vec<String> = Vec::new();
    v.push(String::from_str("Global Shortcuts"));
    v.push(String::from_str(""));
    v.push(String::from_str("Navigation:"));
    v.push(String::from_str("• Tab - Move to next item/section"));
    v.push(String::from_str("• Shift+Tab - Move to previous item/section"));
    v.push(String::from_str("• Up/Down - Navigate in lists"));
    v.push(String::from_str("• Left/Right - Navigate tabs or select options"));
    v.push(String::from_str("• Enter - Select/confirm action"));
    v.push(String::from_str("• Escape - Cancel/Go back"));
    v.push(String::from_str("• q - Quit (with confirmation)"));
    v.push(String::from_str(""));
    v.push(String::from_str("Main Menu:"));
    v.push(String::from_str("• 1-6 - Quick select menu items"));
    v.push(String::from_str("• Enter - Select menu item"));
    v.push(String::from_str(""));
    v.push(String::from_str("Card Review:"));
    v.push(String::from_str("• Space - Flip card to show answer"));
    v.push(String::from_str("• 1-4 - Rate card (Again, Hard, Good, Easy)"));
    v.push(String::from_str("• a - Rate as Again"));
    v.push(String::from_str("• h - Rate as Hard"));
    v.push(String::from_str("• g - Rate as Good"));
    v.push(String::from_str("• e - Rate as Easy"));
    v.push(String::from_str("• s - Pause/Bury card"));
    v.push(String::from_str("• d - Delete card"));
    v.push(String::from_str(""));
    v.push(String::from_str("Deck Management:"));
    v.push(String::from_str("• n - Create new deck"));
    v.push(String::from_str("• r - Rename deck"));
    v.push(String::from_str("• Del - Delete deck"));
    v.push(String::from_str("• i - Import cards"));
    v.push(String::from_str("• x - Export cards"));
    v.push(String::from_str(""));
    v.push(String::from_str("Search:"));
    v.push(String::from_str("• / - Start search"));
    v.push(String::from_str("• n - Find next result"));
    v.push(String::from_str("• p - Find previous result"));
    assert(lines_view(v@) =~= keyboard_shortcuts_text());
    v
}

fn learning_features_lines() -> (v: Vec<String>)
    ensures
        lines_view(v@) == learning_features_text(),
{
    let mut v: Vec<String> = Vec::new();
    v.push(String::from_str("Learning Features"));
    v.push(String::from_str(""));
    v.push(String::from_str("Spaced Repetition System:"));
    v.push(String::from_str("AnkiTUI uses the SM-2 algorithm to optimize learning intervals"));
    v.push(String::from_str("based on your performance ratings."));
    v.push(String::from_str(""));
    v.push(String::from_str("Card Ratings:"));
    v.push(String::from_str("• Again (1): Reset interval to 1 day, increase ease factor penalty"));
    v.push(String::from_str("• Hard (2): Increase interval by 1.2x, slight ease factor decrease"));
    v.push(String::from_str("• Good (3): Increase interval based on current ease factor"));
    v.push(String::from_str("• Easy (4): Increase interval by 1.3x, increase ease factor"));
    v.push(String::from_str(""));
    v.push(String::from_str("Card States:"));
    v.push(String::from_str("• New: Cards not yet studied"));
    v.push(String::from_str("• Learning: Cards in initial learning phase"));
    v.push(String::from_str("• Review: Cards graduated to regular reviews"));
    v.push(String::from_str("• Relearning: Cards that were forgotten and are being relearned"));
    v.push(String::from_str(""));
    v.push(String::from_str("Learning Techniques:"));
    v.push(String::from_str("• Active Recall: Try to recall the answer before viewing"));
    v.push(String::from_str("• Spaced Repetition: Review at optimal intervals"));
    v.push(String::from_str("• Interleaving: Mix different topics for better retention"));
    v.push(String::from_str("• Elaboration: Connect new information to existing knowledge"));
    v.push(String::from_str(""));
    v.push(String::from_str("Study Tips:"));
    v.push(String::from_str("• Study consistently rather than cramming"));
    v.push(String::from_str("• Focus on difficult cards (rated Again or Hard)"));
    v.push(String::from_str("• Use image and sound attachments when possible"));
    v.push(String::from_str("• Create clear, unambiguous card questions"));
    v.push(String::from_str("• Review regularly to maintain momentum"));
    assert(lines_view(v@) =~= learning_features_text());
    v
}

fn deck_management_lines() -> (v: Vec<String>)
    ensures
        lines_view(v@) == deck_management_text(),
{
    let mut v: Vec<String> = Vec::new();
    v.push(String::from_str("Deck Management"));
    v.push(String::from_str(""));
    v.push(String::from_str("Creating Decks:"));
    v.push(String::from_str("Select 'Deck Management' from the main menu, then choose"));
    v.push(String::from_str("'Create Deck' to start a new deck. Give it a descriptive name"));
    v.push(String::from_str("that reflects its content."));
    v.push(String::from_str(""));
    v.push(String::from_str("Card Creation:"));
    v.push(String::from_str("Cards support the following fields:"));
    v.push(String::from_str("• Front: The question or prompt"));
    v.push(String::from_str("• Back: The answer or explanation"));
    v.push(String::from_str("• Tags: Optional labels for organization"));
    v.push(String::from_str("• Media: Optional image/audio attachments"));
    v.push(String::from_str("• Custom fields: Additional data as needed"));
    v.push(String::from_str(""));
    v.push(String::from_str("Import/Export:"));
    v.push(String::from_str("AnkiTUI supports multiple formats:"));
    v.push(String::from_str("• CSV: Comma-separated values with headers"));
    v.push(String::from_str("• JSON: Structured data format"));
    v.push(String::from_str("• TOML: Human-readable configuration format"));
    v.push(String::from_str("• Anki APKG: Anki deck packages (experimental)"));
    v.push(String::from_str(""));
    v.push(String::from_str("Deck Organization:"));
    v.push(String::from_str("• Use descriptive names for decks"));
    v.push(String::from_str("• Tag cards for better searchability"));
    v.push(String::from_str("• Keep decks focused on specific topics"));
    v.push(String::from_str("• Consider splitting large decks into smaller ones"));
    v.push(String::from_str(""));
    v.push(String::from_str("Deck Statistics:"));
    v.push(String::from_str("Track your progress with detailed statistics:"));
    v.push(String::from_str("• Total cards and distribution by state"));
    v.push(String::from_str("• Learning progress and retention rates"));
    v.push(String::from_str("• Daily study patterns and consistency"));
    v.push(String::from_str("• Ease factor trends over time"));
    assert(lines_view(v@) =~= deck_management_text());
    v
}

fn settings_lines() -> (v: Vec<String>)
    ensures
        lines_view(v@) == settings_text(),
{
    let mut v: Vec<String> = Vec::new();
    v.push(String::from_str("Settings Configuration"));
    v.push(String::from_str(""));
    v.push(String::from_str("Learning Limits:"));
    v.push(String::from_str("• Max New Cards: Daily limit for new cards (default: 20)"));
    v.push(String::from_str("• Max Review Cards: Daily limit for reviews (default: 100)"));
    v.push(String::from_str("• Day Start/End: Define your study day hours"));
    v.push(String::from_str(""));
    v.push(String::from_str("Theme & Display:"));
    v.push(String::from_str("• Color Theme: Choose from predefined themes"));
    v.push(String::from_str("  - Dark: Traditional terminal colors"));
    v.push(String::from_str("  - Light: Inverted colors for bright terminals"));
    v.push(String::from_str("  - Ocean: Blue-based color scheme"));
    v.push(String::from_str("  - Forest: Green-based nature theme"));
    v.push(String::from_str("  - Sunset: Warm red/orange tones"));
    v.push(String::from_str("  - Monochrome: Grayscale only"));
    v.push(String::from_str("• Interface style and animation preferences"));
    v.push(String::from_str(""));
    v.push(String::from_str("Keyboard Shortcuts:"));
    v.push(String::from_str("• Customize key bindings for all actions"));
    v.push(String::from_str("• Create personalized workflows"));
    v.push(String::from_str("• Override default shortcuts as needed"));
    v.push(String::from_str(""));
    v.push(String::from_str("Scheduling Algorithm:"));
    v.push(String::from_str("• Starting Ease Factor: Initial difficulty multiplier (default: 2.5)"));
    v.push(String::from_str("• Minimum Ease Factor: Floor for ease factor (default: 1.3)"));
    v.push(String::from_str("• Ease Factor Bonus: Reward for easy reviews (default: 0.1)"));
    v.push(String::from_str("• Interval Modifier: Global interval scaling (default: 1.0)"));
    v.push(String::from_str(""));
    v.push(String::from_str("Data Management:"));
    v.push(String::from_str("• Database location and backup settings"));
    v.push(String::from_str("• Media storage preferences"));
    v.push(String::from_str("• Sync and export configurations"));
    v.push(String::from_str(""));
    v.push(String::from_str("Advanced:"));
    v.push(String::from_str("• Performance tuning options"));
    v.push(String::from_str("• Debug and logging settings"));
    v.push(String::from_str("• Experimental features"));
    assert(lines_view(v@) =~= settings_text());
    v
}

fn troubleshooting_lines() -> (v: Vec<String>)
    ensures
        lines_view(v@) == troubleshooting_text(),
{
    let mut v: Vec<String> = Vec::new();
    v.push(String::from_str("Troubleshooting"));
    v.push(String::from_str(""));
    v.push(String::from_str("Common Issues:"));
    v.push(String::from_str(""));
    v.push(String::from_str("Application Won't Start:"));
    v.push(String::from_str("• Check that terminal supports required features"));
    v.push(String::from_str("• Verify database file permissions"));
    v.push(String::from_str("• Try running with `RUST_LOG=debug` for detailed logs"));
    v.push(String::from_str(""));
    v.push(String::from_str("Cards Not Loading:"));
    v.push(String::from_str("• Ensure deck contains cards with valid format"));
    v.push(String::from_str("• Check that cards are not all buried or suspended"));
    v.push(String::from_str("• Verify scheduling parameters allow new cards"));
    v.push(String::from_str(""));
    v.push(String::from_str("Database Issues:"));
    v.push(String::from_str("• Corrupted database: Try creating a new one"));
    v.push(String::from_str("• Migration errors: Check disk space and permissions"));
    v.push(String::from_str("• Performance issues: Consider database optimization"));
    v.push(String::from_str(""));
    v.push(String::from_str("Display Problems:"));
    v.push(String::from_str("• Terminal too small: Resize to at least 80x24"));
    v.push(String::from_str("• Color issues: Check terminal color support"));
    v.push(String::from_str("• Unicode problems: Ensure UTF-8 encoding"));
    v.push(String::from_str(""));
    v.push(String::from_str("Performance:"));
    v.push(String::from_str("• Slow startup: Check database size and consider optimization"));
    v.push(String::from_str("• Lag during reviews: Disable animations if needed"));
    v.push(String::from_str("• Memory usage: Monitor for leaks in long sessions"));
    v.push(String::from_str(""));
    v.push(String::from_str("Getting Help:"));
    v.push(String::from_str("• Check the GitHub issues page"));
    v.push(String::from_str("• Provide error messages and system information"));
    v.push(String::from_str("• Include steps to reproduce the problem"));
    v.push(String::from_str("• Share relevant configuration files (sans sensitive data)"));
    assert(lines_view(v@) =~= troubleshooting_text());
    v
}

fn about_lines() -> (v: Vec<String>)
    ensures
        lines_view(v@) == about_text(),
{
    let mut v: Vec<String> = Vec::new();
    v.push(String::from_str("About AnkiTUI"));
    v.push(String::from_str(""));
    v.push(String::from_str("Version Information:"));
    v.push(String::from_str("AnkiTUI v0.1.0"));
    v.push(String::from_str("A modern terminal-based spaced repetition learning system"));
    v.push(String::from_str(""));
    v.push(String::from_str("Technology Stack:"));
    v.push(String::from_str("• Language: Rust"));
    v.push(String::from_str("• TUI Framework: ratatui"));
    v.push(String::from_str("• Database: SQLite with sqlx"));
    v.push(String::from_str("• Configuration: TOML"));
    v.push(String::from_str("• Async Runtime: tokio"));
    v.push(String::from_str(""));
    v.push(String::from_str("Algorithm:"));
    v.push(String::from_str("Implements the SM-2 spaced repetition algorithm,"));
    v.push(String::from_str("compatible with Anki and other popular SRS systems."));
    v.push(String::from_str(""));
    v.push(String::from_str("Design Philosophy:"));
    v.push(String::from_str("• Efficient keyboard-driven interface"));
    v.push(String::from_str("• Minimal distractions for focused learning"));
    v.push(String::from_str("• Extensible and maintainable codebase"));
    v.push(String::from_str("• Cross-platform compatibility"));
    v.push(String::from_str("• Privacy-focused local data storage"));
    v.push(String::from_str(""));
    v.push(String::from_str("License:"));
    v.push(String::from_str("MIT License - see LICENSE file for details"));
    v.push(String::from_str(""));
    v.push(String::from_str("Contributing:"));
    v.push(String::from_str("Contributions are welcome! Please see the CONTRIBUTING"));
    v.push(String::from_str("file for guidelines on how to participate in development."));
    v.push(String::from_str(""));
    v.push(String::from_str("Acknowledgments:"));
    v.push(String::from_str("• Anki team for the SM-2 algorithm and inspiration"));
    v.push(String::from_str("• ratatui developers for the excellent TUI framework"));
    v.push(String::from_str("• The Rust community for tools and libraries"));
    v.push(String::from_str(""));
    v.push(String::from_str("Support:"));
    v.push(String::from_str("For bug reports and feature requests, please visit:"));
    v.push(String::from_str("https://github.com/your-repo/ankitui/issues"));
    assert(lines_view(v@) =~= about_text());
    v
}

impl HelpSection {
    /// The section's title.
    pub fn get_title(&self) -> (t: String)
        ensures
            t@ == section_title(*self),
    {
        match self {
            HelpSection::Overview => String::from_str("Overview"),
            HelpSection::KeyboardShortcuts => String::from_str("Keyboard Shortcuts"),
            HelpSection::LearningFeatures => String::from_str("Learning Features"),
            HelpSection::DeckManagement => String::from_str("Deck Management"),
            HelpSection::Settings => String::from_str("Settings"),
            HelpSection::Troubleshooting => String::from_str("Troubleshooting"),
            HelpSection::About => String::from_str("About"),
        }
    }

    /// The section's text, line by line.
    pub fn get_content(&self) -> (c: Vec<String>)
        ensures
            lines_view(c@) == section_text(*self),
    {
        match self {
            HelpSection::Overview => overview_lines(),
            HelpSection::KeyboardShortcuts => keyboard_shortcuts_lines(),
            HelpSection::LearningFeatures => learning_features_lines(),
            HelpSection::DeckManagement => deck_management_lines(),
            HelpSection::Settings => settings_lines(),
            HelpSection::Troubleshooting => troubleshooting_lines(),
            HelpSection::About => about_lines(),
        }
    }

    /// The next section in tab order; the last wraps to the first.
    pub fn next_section(&self) -> (n: HelpSection)
        ensures
            n == section_at((section_index(*self) + 1) % 7),
    {
        match self {
            HelpSection::Overview => HelpSection::KeyboardShortcuts,
            HelpSection::KeyboardShortcuts => HelpSection::LearningFeatures,
            HelpSection::LearningFeatures => HelpSection::DeckManagement,
            HelpSection::DeckManagement => HelpSection::Settings,
            HelpSection::Settings => HelpSection::Troubleshooting,
            HelpSection::Troubleshooting => HelpSection::About,
            HelpSection::About => HelpSection::Overview,
        }
    }

    /// The previous section in tab order; the first wraps to the last.
    pub fn previous_section(&self) -> (p: HelpSection)
        ensures
            p == section_at((section_index(*self) + 6) % 7),
    {
        match self {
            HelpSection::Overview => HelpSection::About,
            HelpSection::KeyboardShortcuts => HelpSection::Overview,
            HelpSection::LearningFeatures => HelpSection::KeyboardShortcuts,
            HelpSection::DeckManagement => HelpSection::LearningFeatures,
            HelpSection::Settings => HelpSection::DeckManagement,
            HelpSection::Troubleshooting => HelpSection::Settings,
            HelpSection::About => HelpSection::Troubleshooting,
        }
    }
}

/// The open section and the first line shown after a key in the help
/// screen: left and right open the neighbouring section at its top, up and
/// down scroll within the text.
pub open spec fn help_after(section: HelpSection, offset: nat, action: Action) -> (HelpSection, nat) {
    match action {
        Action::Left => (section_at((section_index(section) + 6) % 7), 0),
        Action::Right => (section_at((section_index(section) + 1) % 7), 0),
        Action::Up => (section, if offset > 0 {
            (offset - 1) as nat
        } else {
            0
        }),
        Action::Down => (section, if offset + VISIBLE_LINES < section_text(section).len() {
            offset + 1
        } else {
            offset
        }),
        _ => (section, offset),
    }
}

/// The help component: the open section, its tab, and how far it is scrolled.
pub struct Help {
    current_section: HelpSection,
    selected_section_index: usize,
    scroll_offset: usize,
}

impl Help {
    /// The tab shown matches the open section, and the text never scrolls
    /// past its last full page.
    #[verifier::type_invariant]
    closed spec fn inv(&self) -> bool {
        &&& self.selected_section_index == section_index(self.current_section)
        &&& (self.scroll_offset == 0 || self.scroll_offset + VISIBLE_LINES <= section_text(
            self.current_section,
        ).len())
    }

    /// The open section.
    pub closed spec fn section(&self) -> HelpSection {
        self.current_section
    }

    /// The highlighted tab.
    pub closed spec fn tab(&self) -> nat {
        self.selected_section_index as nat
    }

    /// The first line shown.
    pub closed spec fn offset(&self) -> nat {
        self.scroll_offset as nat
    }

    /// Help opened on the overview, at its top.
    pub fn new() -> (h: Help)
        ensures
            help_consistent(h.section(), h.tab(), h.offset()),
            h.section() == HelpSection::Overview,
            h.tab() == 0,
            h.offset() == 0,
    {
        Help { current_section: HelpSection::Overview, selected_section_index: 0, scroll_offset: 0 }
    }

    /// The open section.
    pub fn current_section(&self) -> (s: HelpSection)
        ensures
            s == self.section(),
    {
        self.current_section
    }

    /// Opens the next section at its top.
    pub fn next_section(&mut self)
        ensures
            help_consistent(final(self).section(), final(self).tab(), final(self).offset()),
            final(self).section() == section_at((section_index(old(self).section()) + 1) % 7),
            final(self).tab() == (old(self).tab() + 1) % 7,
            final(self).offset() == 0,
    {
        proof {
            use_type_invariant(&*self);
        }
        let next = self.current_section.next_section();
        let index = (self.selected_section_index + 1) % HELP_SECTIONS;
        *self = Help { current_section: next, selected_section_index: index, scroll_offset: 0 };
    }

    /// Opens the previous section at its top.
    pub fn previous_section(&mut self)
        ensures
            help_consistent(final(self).section(), final(self).tab(), final(self).offset()),
            final(self).section() == section_at((section_index(old(self).section()) + 6) % 7),
            final(self).tab() == if old(self).tab() == 0 {
                6
            } else {
                (old(self).tab() - 1) as nat
            },
            final(self).offset() == 0,
    {
        proof {
            use_type_invariant(&*self);
        }
        let previous = self.current_section.previous_section();
        let index = if self.selected_section_index == 0 {
            6
        } else {
            self.selected_section_index - 1
        };
        *self = Help { current_section: previous, selected_section_index: index, scroll_offset: 0 };
    }

    /// Scrolls one line down while a full page still follows.
    pub fn scroll_down(&mut self)
        ensures
            help_consistent(final(self).section(), final(self).tab(), final(self).offset()),
            final(self).section() == old(self).section(),
            final(self).tab() == old(self).tab(),
            final(self).offset() == if old(self).offset() + VISIBLE_LINES < section_text(
                old(self).section(),
            ).len() {
                old(self).offset() + 1
            } else {
                old(self).offset()
            },
    {
        proof {
            use_type_invariant(&*self);
        }
        let content = self.current_section.get_content();
        if self.scroll_offset + VISIBLE_LINES < content.len() {
            let offset = self.scroll_offset + 1;
            *self = Help {
                current_section: self.current_section,
                selected_section_index: self.selected_section_index,
                scroll_offset: offset,
            };
        }
    }

    /// Scrolls one line up, stopping at the top.
    pub fn scroll_up(&mut self)
        ensures
            help_consistent(final(self).section(), final(self).tab(), final(self).offset()),
            final(self).section() == old(self).section(),
            final(self).tab() == old(self).tab(),
            final(self).offset() == if old(self).offset() > 0 {
                (old(self).offset() - 1) as nat
            } else {
                0
            },
    {
        proof {
            use_type_invariant(&*self);
        }
        if self.scroll_offset > 0 {
            let offset = self.scroll_offset - 1;
            *self = Help {
                current_section: self.current_section,
                selected_section_index: self.selected_section_index,
                scroll_offset: offset,
            };
        }
    }

    /// Left and right change the section, up and down scroll, cancel returns
    /// to the main menu; other actions change nothing.
    pub fn handle_action(&mut self, action: Action) -> (next: Option<AppState>)
        ensures
            help_consistent(final(self).section(), final(self).tab(), final(self).offset()),
            (final(self).section(), final(self).offset()) == help_after(old(self).section(), old(self).offset(), action),
            next == if action == Action::Cancel {
                Some(AppState::MainMenu)
            } else {
                None::<AppState>
            },
            action == Action::Left ==> final(self).section() == section_at(
                (section_index(old(self).section()) + 6) % 7,
            ) && final(self).offset() == 0,
            action == Action::Right ==> final(self).section() == section_at(
                (section_index(old(self).section()) + 1) % 7,
            ) && final(self).offset() == 0,
            action == Action::Up ==> final(self).section() == old(self).section() && final(self).offset() == if old(
                self,
            ).offset() > 0 {
                (old(self).offset() - 1) as nat
            } else {
                0
            },
            action == Action::Down ==> final(self).section() == old(self).section() && final(self).offset()
                == if old(self).offset() + VISIBLE_LINES < section_text(old(self).section()).len() {
                old(self).offset() + 1
            } else {
                old(self).offset()
            },
            !(action == Action::Left || action == Action::Right || action == Action::Up || action
                == Action::Down) ==> final(self).section() == old(self).section() && final(self).offset()
                == old(self).offset() && final(self).tab() == old(self).tab(),
    {
        proof {
            use_type_invariant(&*self);
        }
        match action {
            Action::Left => {
                self.previous_section();
                None
            },
            Action::Right => {
                self.next_section();
                None
            },
            Action::Up => {
                self.scroll_up();
                None
            },
            Action::Down => {
                self.scroll_down();
                None
            },
            Action::Cancel => Some(AppState::MainMenu),
            _ => None,
        }
    }

    /// The help text does not change over time.
    pub fn update(&mut self)
        ensures
            *final(self) == *old(self),
    {
    }

    /// The component's name.
    pub fn name(&self) -> (n: &'static str)
        ensures
            n@ == "help"@,
    {
        "help"
    }
}

/// The next section undoes the previous one, and the other way round.
pub proof fn lemma_section_cycle_inverse(s: HelpSection)
    ensures
        section_at((section_index(section_at((section_index(s) + 1) % 7)) + 6) % 7) == s,
        section_at((section_index(section_at((section_index(s) + 6) % 7)) + 1) % 7) == s,
{
}

/// The section `k` steps forward in tab order.
pub open spec fn advance(s: HelpSection, k: nat) -> HelpSection
    decreases k,
{
    if k == 0 {
        s
    } else {
        advance(section_at((section_index(s) + 1) % 7), (k - 1) as nat)
    }
}

/// Seven steps forward through the sections come back to the start, and no
/// fewer do.
pub proof fn lemma_section_cycle_length(s: HelpSection)
    ensures
        advance(s, 7) == s,
        forall|k: nat| 0 < k < 7 ==> #[trigger] advance(s, k) != s,
{
    reveal_with_fuel(advance, 8);
}

} // verus!
