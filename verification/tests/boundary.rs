// The boundary's protocol logic, exercised on concrete values: the
// envelopes never carry a payload and an error at once, index selection
// errs exactly outside the enumeration, capture sessions mirror the
// consumed display's dimensions, and frame polling keeps not-ready
// distinct from failure.

use scrap_sys::boundary::capturer_frame;
use scrap_sys::boundary::capturer_new;
use scrap_sys::boundary::display_list;
use scrap_sys::boundary::display_primary;
use scrap_sys::boundary::get_display;
use scrap_sys::envelope::FramePoll;
use scrap_sys::error::BoundaryError;
use scrap_sys::error::error_free;
use scrap_sys::handle::DisplayHandle;
use scrap_sys::handle::capturer_free;
use scrap_sys::handle::capturer_height;
use scrap_sys::handle::capturer_width;
use scrap_sys::handle::display_free;
use scrap_sys::handle::display_height;
use scrap_sys::handle::display_width;

const INDEX_ERROR: &str = "No display found in this index";

fn two_displays() -> Vec<(usize, usize, ())> {
    vec![(1920, 1080, ()), (1280, 720, ())]
}

#[test]
fn display_list_ok_keeps_order_and_sizes() {
    let r = display_list(Ok(two_displays()));
    assert!(r.err.is_none());
    let list = r.list.unwrap();
    assert_eq!(list.len(), 2);
    assert_eq!(display_width(&list[0]), 1920);
    assert_eq!(display_height(&list[0]), 1080);
    assert_eq!(display_width(&list[1]), 1280);
    assert_eq!(display_height(&list[1]), 720);
}

#[test]
fn display_list_err_carries_message_and_no_list() {
    let r = display_list(Err::<Vec<(usize, usize, ())>, _>(String::from("no display subsystem")));
    assert!(r.list.is_none());
    assert_eq!(r.err.unwrap().message(), "no display subsystem");
}

#[test]
fn display_primary_ok_carries_exactly_the_display() {
    let r = display_primary(Ok::<_, String>((800, 600, ())));
    assert!(r.err.is_none());
    let d = r.display.unwrap();
    assert_eq!(display_width(&d), 800);
    assert_eq!(display_height(&d), 600);
}

#[test]
fn display_primary_err_carries_exactly_the_error() {
    let r = display_primary(Err::<(usize, usize, ()), _>(String::from("connection refused")));
    assert!(r.display.is_none());
    assert_eq!(r.err.unwrap().message(), "connection refused");
}

#[test]
fn get_display_in_range_returns_that_display() {
    let r = get_display(Ok(two_displays()), 1);
    assert!(r.err.is_none());
    let d = r.display.unwrap();
    assert_eq!(display_width(&d), 1280);
    assert_eq!(display_height(&d), 720);
}

#[test]
fn get_display_past_end_is_a_domain_error() {
    let r = get_display(Ok(two_displays()), 2);
    assert!(r.display.is_none());
    assert_eq!(r.err.unwrap().message(), INDEX_ERROR);
}

#[test]
fn get_display_negative_index_is_a_domain_error() {
    let r = get_display(Ok(two_displays()), -1);
    assert!(r.display.is_none());
    assert_eq!(r.err.unwrap().message(), INDEX_ERROR);
}

#[test]
fn get_display_backend_failure_is_not_a_domain_error() {
    let r = get_display(Err::<Vec<(usize, usize, ())>, _>(String::from("enumeration failed")), 0);
    assert!(r.display.is_none());
    assert_eq!(r.err.unwrap().message(), "enumeration failed");
}

#[test]
fn capturer_mirrors_consumed_display_dimensions() {
    let d = DisplayHandle::new(1920, 1080, ());
    let (w, h) = (display_width(&d), display_height(&d));
    // Opening the session consumes the display handle.
    let (width, height, backend) = d.into_parts();
    let r = capturer_new(width, height, Ok::<_, String>(backend));
    assert!(r.err.is_none());
    let c = r.capturer.unwrap();
    assert_eq!(capturer_width(&c), w);
    assert_eq!(capturer_height(&c), h);
    capturer_free(c);
}

#[test]
fn capturer_open_failure_carries_exactly_the_error() {
    let r = capturer_new(1920, 1080, Err::<(), _>(String::from("permission denied")));
    assert!(r.capturer.is_none());
    assert_eq!(r.err.unwrap().message(), "permission denied");
}

#[test]
fn frame_ready_carries_exactly_the_bytes() {
    let bytes = vec![0u8; 1920 * 1080 * 4];
    let r = capturer_frame(FramePoll::Ready(bytes));
    assert!(!r.would_block);
    assert!(r.err.is_none());
    assert_eq!(r.data.unwrap().len(), 1920 * 1080 * 4);
}

#[test]
fn frame_not_ready_repeats_with_empty_payload() {
    for _ in 0..3 {
        let r = capturer_frame(FramePoll::NotReady);
        assert!(r.would_block);
        assert!(r.data.is_none());
        assert!(r.err.is_none());
    }
}

#[test]
fn frame_failure_carries_exactly_the_error() {
    let r = capturer_frame(FramePoll::Failed(String::from("device removed")));
    assert!(!r.would_block);
    assert!(r.data.is_none());
    assert_eq!(r.err.unwrap().message(), "device removed");
}

#[test]
fn error_round_trips_its_message_and_frees_once() {
    let e = BoundaryError::new(String::from("backend said no"));
    assert_eq!(e.message(), "backend said no");
    error_free(e);
}

#[test]
fn every_created_handle_has_a_matching_free() {
    let d = DisplayHandle::new(640, 480, ());
    display_free(d);
    let r = capturer_new(640, 480, Ok::<_, String>(()));
    capturer_free(r.capturer.unwrap());
    error_free(BoundaryError::new(String::from("gone")));
}

#[test]
fn scenario_two_displays_listed_and_indexed() {
    // The backend reports two displays, 1920x1080 then 1280x720.
    let listed = display_list(Ok(two_displays()));
    let list = listed.list.unwrap();
    assert_eq!(list.len(), 2);
    assert_eq!(
        (display_width(&list[0]), display_height(&list[0])),
        (1920, 1080)
    );
    assert_eq!(
        (display_width(&list[1]), display_height(&list[1])),
        (1280, 720)
    );

    let second = get_display(Ok(two_displays()), 1);
    let d = second.display.unwrap();
    assert_eq!((display_width(&d), display_height(&d)), (1280, 720));

    let past_end = get_display(Ok(two_displays()), 2);
    assert!(past_end.display.is_none());
    assert_eq!(past_end.err.unwrap().message(), INDEX_ERROR);
}
