use meibe_bot::commands::{
    check_voice_access, create_menu_options, help_command, help_footer, join_decision, move_message,
    nothing_playing_message, page_number, plan_loops, queue_menu_pages, select_queue_page, removal_message, yapper_message, JoinDecision, LoopAction,
};
use meibe_bot::error::BotError;
use meibe_bot::messages::factory::LoopState;
use meibe_bot::text::{decimal_string, replace_all, str_contains, str_ends_with};
use meibe_bot::download::{
    attachment_name, download_args, download_failure, download_path, is_download_of, missing_downloader,
    not_downloaded, sent_by, video_file_name, waiting_notice,
};
use meibe_bot::utils::{duration_string, get_total_pages};

#[test]
fn decimal_rendering() {
    assert_eq!(decimal_string(0), "0");
    assert_eq!(decimal_string(7), "7");
    assert_eq!(decimal_string(1234567890), "1234567890");
    assert_eq!(decimal_string(u64::MAX), u64::MAX.to_string());
}

#[test]
fn clock_rendering() {
    assert_eq!(duration_string(0), "00:00");
    assert_eq!(duration_string(59), "00:59");
    assert_eq!(duration_string(61), "01:01");
    assert_eq!(duration_string(3599), "59:59");
    assert_eq!(duration_string(3600), "1:00:00");
    assert_eq!(duration_string(36125), "10:02:05");
}

#[test]
fn page_counts() {
    assert_eq!(get_total_pages(0, 10), 0);
    assert_eq!(get_total_pages(1, 10), 1);
    assert_eq!(get_total_pages(10, 10), 1);
    assert_eq!(get_total_pages(11, 10), 2);
    assert_eq!(get_total_pages(usize::MAX, 2), usize::MAX / 2 + 1);
}

#[test]
fn text_helpers() {
    assert!(str_ends_with("pic.jpeg", "jpeg"));
    assert!(!str_ends_with("pic.jpeg", "jpg"));
    assert!(!str_ends_with("g", "jpg"));
    assert_eq!(replace_all("aaa", "aa", "b"), "ba");
    assert_eq!(replace_all("x{}y{}", "{}", "null"), "x{}y{}".replace("{}", "null"));
}

#[test]
fn voice_access() {
    let e = check_voice_access(None, Some(Some(1))).err().unwrap();
    assert_eq!(e.to_string(), "❗ **Bot is not in a voice channel**");
    let e = check_voice_access(Some(Some(1)), None).err().unwrap();
    assert_eq!(e.to_string(), "❗ **You have to be in a voice channel**");
    let e = check_voice_access(Some(Some(1)), Some(Some(2))).err().unwrap();
    assert_eq!(e.to_string(), "❗ **You are not in the same voice channel as bot**");
    assert!(check_voice_access(Some(Some(5)), Some(Some(5))).is_ok());
}

#[test]
fn joining() {
    assert!(matches!(join_decision(None, true), Err(BotError::NotInVoice)));
    assert!(matches!(join_decision(Some(Some(9)), true), Ok(JoinDecision::UseExisting)));
    assert!(matches!(join_decision(Some(Some(9)), false), Ok(JoinDecision::Join(9))));
}

#[test]
fn looping() {
    let (a, m) = plan_loops(Some(3), &LoopState::Infinite);
    assert_eq!(a, LoopAction::LoopFor(3));
    assert_eq!(m.to_string(), "✅ **Track looping set to 3**");
    let (a, m) = plan_loops(None, &LoopState::Infinite);
    assert_eq!(a, LoopAction::DisableLoop);
    assert_eq!(m.to_string(), "✅ **Disabled infinite loop**");
    let (a, m) = plan_loops(None, &LoopState::Finite(0));
    assert_eq!(a, LoopAction::EnableLoop);
    assert_eq!(m.to_string(), "✅ **Enabled infinite loop**");
    assert_eq!(nothing_playing_message().to_string(), "I'm not playing anything right now");
}

#[test]
fn queue_command_texts() {
    assert_eq!(move_message("A - B", 3, 1).to_string(), "✅ **Track *A - B* has been successfully moved\n3. -> 1.**");
    assert_eq!(removal_message(2, Some(3), "x").to_string(), "✅ **Removed multiple tracks 2 - 4 from queue**");
    assert_eq!(removal_message(2, None, "A - B").to_string(), "✅ **Removed track *A - B* on index 2 from queue**");
}

#[test]
fn page_menu() {
    let opts = create_menu_options(3);
    assert_eq!(opts.len(), 3);
    assert_eq!(opts[0].label, "Page 1");
    assert_eq!(opts[0].value, "0");
    assert_eq!(opts[2].label, "Page 3");
    assert_eq!(opts[2].value, "2");
    assert!(create_menu_options(0).is_empty());
    assert_eq!(queue_menu_pages(1), None);
    assert_eq!(queue_menu_pages(11), None);
    assert_eq!(queue_menu_pages(12), Some(2));
}

#[test]
fn help_texts() {
    assert_eq!(help_command("help", Some("play".to_string())).as_deref(), Some("play"));
    assert_eq!(help_command("help", None), None);
    assert_eq!(help_command("fruit", Some("apple".to_string())).as_deref(), Some("fruit apple"));
    assert_eq!(help_command("fruit", None).as_deref(), Some("fruit"));
    assert_eq!(
        help_footer("."),
        "Type `.help command` for more info on a command.\n    You can edit your `.help` message to the bot and the bot will edit its response."
    );
    assert_eq!(yapper_message("bob").to_string(), "bob is the biggest yapper of em all");
}

#[test]
fn menu_values_read_as_pages() {
    assert_eq!(page_number("0"), Some(0));
    assert_eq!(page_number("12"), Some(12));
    assert_eq!(page_number("+7"), Some(7));
    assert_eq!(page_number(""), None);
    assert_eq!(page_number("+"), None);
    assert_eq!(page_number("1a"), None);
    assert_eq!(page_number("-1"), None);
    assert_eq!(page_number("18446744073709551615"), Some(usize::MAX));
    assert_eq!(page_number("18446744073709551616"), None);
    assert_eq!(page_number("99999999999999999999x"), None);
}

#[test]
fn queue_page_follows_the_menu() {
    assert_eq!(select_queue_page(0, "5select_menu", "5select_menu", Some(vec!["3".to_string()])), 3);
    assert_eq!(select_queue_page(2, "5select_menu", "5select_menu", None), 2);
    assert_eq!(select_queue_page(2, "5select_menu", "5other", Some(vec!["x".to_string()])), 2);
}

#[test]
fn text_containment() {
    assert!(str_contains("video_12.mp4", "video_12"));
    assert!(str_contains("abc", ""));
    assert!(str_contains("", ""));
    assert!(!str_contains("ab", "abc"));
    assert!(!str_contains("video_1.mp4", "video_12"));
    assert!(str_contains("xxabab", "abab"));
}

#[test]
fn video_download_texts() {
    assert_eq!(video_file_name(42), "video_42");
    assert_eq!(download_path("/tmp", "video_42"), "/tmp/video_42");
    assert_eq!(download_args("https://v", "/tmp/video_42"), vec!["https://v", "-o", "/tmp/video_42"]);
    assert!(is_download_of("video_42.mp4", "video_42"));
    assert!(!is_download_of("video_4.mp4", "video_42"));
    assert_eq!(download_failure(Some("ERROR: 404".to_string())), "Download failed: ERROR: 404");
    assert_eq!(download_failure(None), "Download failed");
    assert_eq!(missing_downloader(), "yt-dlp is not installed");
    assert_eq!(waiting_notice(), "Just a second, i'm getting the sauce");
    assert_eq!(not_downloaded(), "Video not properly downloaded, something went wrong");
    assert_eq!(attachment_name("video_42"), "video_42.mp4");
    assert_eq!(sent_by("meibe"), "Sent by meibe");
}
