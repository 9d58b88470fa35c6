use lazyenv::app::App;

#[test]
fn status_stays_for_its_lifetime_and_is_cleared_by_the_last_tick() {
    for lifetime in [1u8, 2, 5, 20, 255] {
        let mut app = App::with_status_lifetime(lifetime);
        app.post_status("saved".to_string());
        assert_eq!(app.status_message_timer, lifetime);
        for done in 1..lifetime {
            app.tick();
            assert_eq!(app.status_message.as_deref(), Some("saved"));
            assert_eq!(app.status_message_timer, lifetime - done);
        }
        app.tick();
        assert_eq!(app.status_message, None);
        assert_eq!(app.status_message_timer, 0);
        assert!(app.is_well_formed());
    }
}

#[test]
fn a_new_status_replaces_the_old_one_and_restarts_the_lifetime() {
    let mut app = App::with_status_lifetime(4);
    app.post_status("first".to_string());
    app.tick();
    app.tick();
    app.tick();
    assert_eq!(app.status_message_timer, 1);
    app.post_status("second".to_string());
    assert_eq!(app.status_message.as_deref(), Some("second"));
    assert_eq!(app.status_message_timer, 4);
    app.tick();
    app.tick();
    app.tick();
    assert_eq!(app.status_message.as_deref(), Some("second"));
    app.tick();
    assert_eq!(app.status_message, None);
}

#[test]
fn ticks_without_a_status_change_nothing() {
    let mut app = App::new();
    app.tick();
    app.tick();
    assert_eq!(app.status_message, None);
    assert_eq!(app.status_message_timer, 0);
    assert!(app.is_well_formed());
}

#[test]
fn the_default_lifetime_is_twenty_ticks() {
    let mut app = App::new();
    app.post_status("x".to_string());
    for _ in 0..19 {
        app.tick();
    }
    assert!(app.status_message.is_some());
    app.tick();
    assert!(app.status_message.is_none());
}

#[test]
fn a_lifetime_of_zero_is_raised_to_one() {
    let mut app = App::with_status_lifetime(0);
    assert_eq!(app.status_lifetime, 1);
    app.post_status("x".to_string());
    assert!(app.status_message.is_some());
    app.tick();
    assert!(app.status_message.is_none());
}
