use shellshop::app::App;
use shellshop::channel_loop::{splash_over, ChannelInput, ChannelSession, Flow, Phase};

#[test]
fn splash_lasts_three_seconds() {
    assert!(!splash_over(0));
    assert!(!splash_over(2999));
    assert!(splash_over(3000));
    assert!(splash_over(u64::MAX));
}

#[test]
fn splash_drops_keys_and_ignores_disconnect() {
    let mut s = ChannelSession::new(App::new(80, 24));
    assert_eq!(s.phase(), Phase::Splash);
    assert_eq!(s.begin_round(10), Phase::Splash);
    assert_eq!(s.take_input(ChannelInput::Bytes(b"sd".to_vec())), Flow::Continue);
    assert_eq!(s.app().selected_tab(), 0);
    assert_eq!(s.app().selected_account(), 0);
    assert_eq!(s.take_input(ChannelInput::Disconnected), Flow::Continue);
    assert_eq!(s.take_input(ChannelInput::Nothing), Flow::Continue);
}

#[test]
fn splash_quits_on_q() {
    let mut s = ChannelSession::new(App::new(80, 24));
    assert_eq!(s.take_input(ChannelInput::Bytes(b"xq".to_vec())), Flow::Stop);
}

#[test]
fn main_screen_applies_keys_and_stays() {
    let mut s = ChannelSession::new(App::new(80, 24));
    assert_eq!(s.begin_round(3000), Phase::Main);
    assert_eq!(s.begin_round(5), Phase::Main);
    assert_eq!(s.take_input(ChannelInput::Bytes(b"s".to_vec())), Flow::Continue);
    assert_eq!(s.app().selected_tab(), 2);
    assert_eq!(s.take_input(ChannelInput::Bytes(vec![0x1b])), Flow::Continue);
    assert_eq!(s.take_input(ChannelInput::Nothing), Flow::Continue);
    assert_eq!(s.take_input(ChannelInput::Bytes(vec![b'[', b'D'])), Flow::Continue);
    assert_eq!(s.app().selected_tab(), 1);
}

#[test]
fn main_screen_stops_on_disconnect_or_quit() {
    let mut s = ChannelSession::new(App::new(80, 24));
    s.begin_round(4000);
    assert_eq!(s.take_input(ChannelInput::Disconnected), Flow::Stop);
    let mut s = ChannelSession::new(App::new(80, 24));
    s.begin_round(4000);
    assert_eq!(s.take_input(ChannelInput::Bytes(vec![b'h', 0x03, b's'])), Flow::Stop);
    assert_eq!(s.app().selected_tab(), 3);
}

#[test]
fn session_viewport_follows_dims() {
    let mut s = ChannelSession::new(App::new(80, 24));
    assert!(!s.sync_viewport_from_dims(80, 24));
    assert!(s.sync_viewport_from_dims(100, 30));
    assert_eq!((s.app().cols(), s.app().rows()), (100, 30));
}
