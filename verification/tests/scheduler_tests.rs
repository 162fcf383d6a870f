use crawler::NotifyData;
use crawler::PollError;
use crawler::hotline_parser::HotlineParser;
use crawler::hotline_parser::Price;
use crawler::hotline_parser::find_first_match;
use crawler::hotline_parser::hotline_notify_data;
use crawler::scheduler::LAUNCH_STAGGER_SECONDS;
use crawler::scheduler::PollAction;
use crawler::scheduler::Scheduler;
use crawler::scheduler::crawler_main;
use crawler::scheduler::launch_offset_seconds;
use crawler::scheduler::poll_action;
use crawler::settings::ParserType;
use crawler::settings::Settings;
use crawler::settings::Site;
use crawler::settings::TelegramSettings;
use crawler::telegram_notifier::TelegramNotifier;

fn price(p: u64, stock_id: &str, firm: &str) -> Price {
    Price {
        price_uah_real_raw: p,
        stock_type_id: stock_id.to_owned(),
        firm_title: firm.to_owned(),
        stock_type: "in stock".to_owned(),
    }
}

fn site(name: &str) -> Site {
    Site {
        name: name.to_owned(),
        parser_type: ParserType::Json,
        endpoint: "https://feed.example/prices".to_owned(),
        interval_seconds: 60,
        selector: None,
        ignored_texts: None,
        preflight_request: None,
        csrf_token_selector: None,
        csrf_token_header: None,
        max_allowed_price_uah: Some(1000),
    }
}

fn telegram() -> TelegramSettings {
    TelegramSettings { token: "SECRET-REDACTED".to_owned(), chat_id: "42".to_owned() }
}

#[test]
fn filter_returns_earliest_qualifying_record() {
    let prices = vec![
        price(1500, "1", "A"),
        price(900, "0", "B"),
        price(900, "1", "C"),
        price(100, "1", "D"),
    ];
    assert_eq!(find_first_match(&prices, 1000), Some(2));
    assert_eq!(find_first_match(&prices, 50), None);
    assert_eq!(find_first_match(&Vec::new(), 1000), None);
}

#[test]
fn filter_threshold_is_inclusive() {
    let prices = vec![price(1000, "1", "Edge")];
    assert_eq!(find_first_match(&prices, 1000), Some(0));
}

#[test]
fn notify_data_embeds_seller_price_and_stock() {
    let data = hotline_notify_data(&price(900, "1", "Acme"), &"Hotline".to_owned());
    assert_eq!(data.site_name, "Hotline");
    assert_eq!(data.message, "Acme has a price of 900 and stock type: in stock");
}

#[test]
fn parse_json_reports_first_match() {
    let body = "{\"prices\": [{\"price_uah_real_raw\": 900, \"stock_type_id\": \"1\", \"firm_title\": \"Acme\", \"stock_type\": \"in stock\"}]}";
    let parser = HotlineParser {};
    let data = parser.parse_json(body.to_owned(), &site("Hotline")).unwrap().unwrap();
    assert!(data.message.contains("Acme"));
}

#[test]
fn scheduler_builds_one_work_item_per_site() {
    let sites = vec![site("First"), site("Second"), site("Third")];
    let scheduler = Scheduler::new(sites, telegram()).unwrap();
    assert_eq!(scheduler.work_items.len(), 3);
    assert_eq!(scheduler.work_items[0].site.name, "First");
    assert_eq!(scheduler.work_items[2].site.name, "Third");
    assert_eq!(scheduler.notifier.token(), "SECRET-REDACTED");
    assert_eq!(scheduler.notifier.chat_id(), "42");
}

#[test]
fn crawler_main_builds_the_scheduler() {
    let settings = Settings { telegram: telegram(), sites: vec![site("Only")] };
    let scheduler = crawler_main(settings).unwrap();
    assert_eq!(scheduler.work_items.len(), 1);
    assert_eq!(scheduler.work_items[0].site.name, "Only");
}

#[test]
fn startup_notification_is_fixed() {
    let scheduler = Scheduler::new(Vec::new(), telegram()).unwrap();
    let data = scheduler.startup_notification();
    assert_eq!(data.site_name, "Local");
    assert_eq!(data.message, "The bot is starting");
}

#[test]
fn poll_action_maps_every_outcome() {
    let fired = poll_action(Ok(Some(NotifyData {
        site_name: "S".to_owned(),
        message: "m".to_owned(),
    })));
    assert!(matches!(fired, PollAction::Deliver(d) if d.message == "m"));
    assert!(matches!(poll_action(Ok(None)), PollAction::Idle));
    assert!(matches!(
        poll_action(Err(PollError::FeedDecode)),
        PollAction::Log(PollError::FeedDecode)
    ));
}

#[test]
fn launch_offsets_are_staggered() {
    assert_eq!(LAUNCH_STAGGER_SECONDS, 2);
    assert_eq!(launch_offset_seconds(0), 0);
    assert_eq!(launch_offset_seconds(1), 2);
    assert_eq!(launch_offset_seconds(7), 14);
    assert_eq!(launch_offset_seconds(usize::MAX), u64::MAX);
}

#[test]
fn message_text_tags_the_site() {
    let notifier = TelegramNotifier::new(telegram()).unwrap();
    let text = notifier.message_text(&NotifyData {
        site_name: "Shop".to_owned(),
        message: "Back in stock!".to_owned(),
    });
    assert_eq!(text, "Shop: Back in stock!");
}
