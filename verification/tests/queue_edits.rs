use meibe_bot::error::BotError;
use meibe_bot::messages::message::Message;
use meibe_bot::queue::{clear_queue, queue_move, remove_tracks};

fn generic_text(e: BotError) -> String {
    match e {
        BotError::Generic(s) => s,
        _ => panic!("expected a generic error"),
    }
}

#[test]
fn move_track_forward_and_back() {
    let mut q = vec![0, 1, 2, 3, 4];
    assert_eq!(queue_move(&mut q, 1, 3).ok(), Some(3));
    assert_eq!(q, vec![0, 2, 3, 1, 4]);
    assert_eq!(queue_move(&mut q, 3, 1).ok(), Some(1));
    assert_eq!(q, vec![0, 1, 2, 3, 4]);
}

#[test]
fn move_target_is_clamped() {
    let mut q = vec![10, 11, 12, 13];
    assert_eq!(queue_move(&mut q, 2, 0).ok(), Some(1));
    assert_eq!(q, vec![10, 12, 11, 13]);
    assert_eq!(queue_move(&mut q, 1, 99).ok(), Some(3));
    assert_eq!(q, vec![10, 11, 13, 12]);
}

#[test]
fn move_refuses_playing_and_missing_tracks() {
    let mut q = vec![1, 2, 3];
    let e = queue_move(&mut q, 0, 1).err().unwrap();
    assert_eq!(generic_text(e), "Invalid track index, allowed range 1 - 2");
    let e = queue_move(&mut q, 3, 1).err().unwrap();
    assert_eq!(generic_text(e), "Invalid track index, allowed range 1 - 2");
    assert_eq!(q, vec![1, 2, 3]);
}

#[test]
fn remove_single_and_range() {
    let mut q = vec![0, 1, 2, 3, 4, 5];
    assert!(remove_tracks(&mut q, 2, None).is_ok());
    assert_eq!(q, vec![0, 1, 3, 4, 5]);
    assert!(remove_tracks(&mut q, 1, Some(2)).is_ok());
    assert_eq!(q, vec![0, 4, 5]);
}

#[test]
fn remove_range_past_the_end() {
    let mut q = vec![0, 1, 2, 3];
    assert!(remove_tracks(&mut q, 2, Some(10)).is_ok());
    assert_eq!(q, vec![0, 1]);
}

#[test]
fn remove_refusals() {
    let mut q = vec![0, 1, 2];
    let e = remove_tracks(&mut q, 0, None).err().unwrap();
    assert_eq!(generic_text(e), "Invalid track index, allowed range 1 - 2");
    let e = remove_tracks(&mut q, 1, Some(0)).err().unwrap();
    assert_eq!(generic_text(e), "Range has to be equal or greater than 1");
    assert_eq!(q, vec![0, 1, 2]);
}

#[test]
fn clear_keeps_playing_track() {
    let mut q = vec![7, 8, 9];
    let done = clear_queue(&mut q).ok().unwrap();
    assert!(matches!(done, Message::Success(ref s) if s == "Queue has been successfully cleared"));
    assert_eq!(q, vec![7]);
    let refused = clear_queue(&mut q).err().unwrap();
    assert!(matches!(refused, Message::Error(ref s) if s == "There's nothing to clear"));
    assert_eq!(q, vec![7]);
}
