use aeron_rs_media_driver::signal::StopSignal;
use aeron_rs_media_driver::supervisor::Event;

#[test]
fn new_signal_reads_running() {
    let signal = StopSignal::new();
    assert_eq!(signal.read(), Event::StopSignalRead { running: true });
    assert_eq!(signal.read(), Event::StopSignalRead { running: true });
}

#[test]
fn requested_stop_is_read_and_stays() {
    let signal = StopSignal::new();
    signal.request_stop();
    assert_eq!(signal.read(), Event::StopSignalRead { running: false });
    signal.request_stop();
    assert_eq!(signal.read(), Event::StopSignalRead { running: false });
}

#[test]
fn clones_share_the_flag() {
    let signal = StopSignal::new();
    let handler_side = signal.clone();
    assert_eq!(signal.read(), Event::StopSignalRead { running: true });
    handler_side.request_stop();
    assert_eq!(signal.read(), Event::StopSignalRead { running: false });
}
