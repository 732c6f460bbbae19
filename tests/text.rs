use yt_feeds::error::Error;
use yt_feeds::finder::{folded_matches, FinderData};
use yt_feeds::input::TextInputType;
use yt_feeds::search::{Search, SearchData};
use yt_feeds::text::{decimal, push_decimal, push_signed_decimal, push_str};
use yt_feeds::time::{age_formatted, days_between, time_formatted_short, time_since_formatted};
use yt_feeds::video::Video;
use yt_feeds::view::View;

#[test]
fn decimals() {
    assert_eq!(decimal(0), "0");
    assert_eq!(decimal(1234567890), "1234567890");
    assert_eq!(decimal(u64::MAX), "18446744073709551615");
    let mut s = String::from("n=");
    push_signed_decimal(&mut s, i64::MIN);
    assert_eq!(s, "n=-9223372036854775808");
    let mut t = String::new();
    push_decimal(&mut t, 42);
    push_str(&mut t, "!");
    assert_eq!(t, "42!");
}

#[test]
fn watched_times() {
    assert_eq!(time_formatted_short(None), "Not Watched");
    assert_eq!(time_formatted_short(Some(0)), "0s Watched");
    assert_eq!(time_formatted_short(Some(59)), "59s Watched");
    assert_eq!(time_formatted_short(Some(3600)), "1h0s Watched");
    assert_eq!(time_formatted_short(Some(3725)), "1h2m5s Watched");
    assert_eq!(time_formatted_short(Some(120)), "2m0s Watched");
    assert_eq!(time_formatted_short(Some(-65)), "-5s Watched");
}

#[test]
fn ages() {
    assert_eq!(age_formatted(0), "Today");
    assert_eq!(age_formatted(-3), "Today");
    assert_eq!(age_formatted(1), "1 Day Ago");
    assert_eq!(age_formatted(6), "6 Days Ago");
    assert_eq!(age_formatted(7), "1 Week Ago");
    assert_eq!(age_formatted(27), "3 Weeks Ago");
    assert_eq!(age_formatted(28), "1 Month Ago");
    assert_eq!(age_formatted(364), "13 Months Ago");
    assert_eq!(age_formatted(365), "1 Year Ago");
    assert_eq!(age_formatted(800), "2 Years Ago");
    assert_eq!(days_between(0, 0), 1);
    assert_eq!(days_between(0, 86400 * 3 - 1), 3);
    assert_eq!(days_between(86400 * 10, 0), -9);
    assert_eq!(days_between(86400 * 10, 1), -8);
}

#[test]
fn relative_upload_dates_use_the_clock() {
    let now = std::time::SystemTime::now()
        .duration_since(std::time::UNIX_EPOCH)
        .unwrap()
        .as_secs() as i64;
    assert_eq!(time_since_formatted(now), "1 Day Ago");
    assert_eq!(time_since_formatted(now - 86400 * 20), "3 Weeks Ago");
    let v = Video::new("t", "id", "d", now - 86400 * 400, None);
    assert_eq!(v.date_relative_str(), "1 Year Ago");
}

#[test]
fn finder_matches_ignoring_case() {
    let mut f = FinderData::default();
    assert!(!f.is_active());
    assert!(f.matches("anything"));
    f.add('R');
    f.add('u');
    assert!(f.is_active());
    assert_eq!(f.query.as_deref(), Some("Ru"));
    assert!(f.matches("Learning rust today"));
    assert!(!f.matches("Python"));
    f.delete();
    assert_eq!(f.query.as_deref(), Some("R"));
    f.delete();
    f.delete();
    assert_eq!(f.query.as_deref(), Some(""));
    let mut g = FinderData::default();
    g.delete();
    assert_eq!(g.query.as_deref(), Some(""));
    assert!(g.matches("x"));
    assert!(folded_matches("ab", "xaby"));
    assert!(!folded_matches("ab", "xAby"));
    let mut accented = FinderData::default();
    accented.add('À');
    assert!(accented.matches("voilà"));
    assert!(folded_matches("", "hello"));
}

#[test]
fn search_query_editing() {
    let mut d: SearchData<u8> = SearchData::new();
    d.input(TextInputType::Char('a'));
    d.input(TextInputType::Char('é'));
    d.input(TextInputType::Submit);
    assert_eq!(d.query(), "aé");
    d.input(TextInputType::Backspace);
    assert_eq!(d.query(), "a");
    d.input(TextInputType::Backspace);
    d.input(TextInputType::Backspace);
    assert_eq!(d.query(), "");
    d.input(TextInputType::Char('z'));
    d.input(TextInputType::Init);
    assert_eq!(d.query(), "");
    let with = d.with_results(vec![1, 2]);
    assert_eq!(with.results(), &vec![1, 2]);
    assert_eq!(Search::Channel(None).query(), None);
    assert_eq!(Search::Channel(Some(SearchData::new())).query(), Some(""));
}

#[test]
fn view_paging() {
    let mut v = View::new("Home", 0, vec!["[q] quit".to_string()]);
    assert_eq!(v.pages(), 0);
    v.page_next();
    assert_eq!(v.selection(), 0);
    for i in 0..7 {
        v.add_line_selection(format!("entry {}", i));
    }
    v.add_line_info("info".to_string());
    v.selections_per_page = 3;
    assert_eq!(v.pages(), 3);
    assert_eq!(v.page_current(), 0);
    v.page_next();
    assert_eq!(v.selection(), 3);
    v.page_next();
    v.page_next();
    assert_eq!(v.selection(), 6);
    assert_eq!(v.page_current(), 2);
    v.page_previous();
    assert_eq!(v.selection(), 3);
    v.page_previous();
    v.page_previous();
    assert_eq!(v.selection(), 0);
    v.set_error(Some("oops".to_string()));
    assert_eq!(v.error.as_deref(), Some("oops"));
    v.page_next();
    v.page_reset();
    assert_eq!(v.selection(), 0);
    assert_eq!(v.lines.len(), 1);
}

#[test]
fn error_messages() {
    assert_eq!(Error::CommandFailed("mpv".to_string()).message(), "Could not run command: mpv");
    assert_eq!(Error::FileBadAccess.message(), "Could not access file");
    assert_eq!(Error::JsonParsing.message(), "Could not parse JSON");
    assert_eq!(Error::ChannelParsing.message(), "Could not parse channel information from yt-dlp");
    assert_eq!(Error::VideoParsing.message(), "Could not parse video information from yt-dlp");
    assert_eq!(Error::VideoNotAvailable.message(), "Fetched video was not available");
    assert_eq!(Error::TomlParsing.message(), "Could not load toml configuration");
    assert_eq!(Error::InternalError("x".to_string()).message(), "Internal Error(x)");
}
