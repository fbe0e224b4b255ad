use luminance_surfman::pixels::report_extent;
use luminance_surfman::protocol::{Fault, Operation, Phase, Report, Request, Run};

/// A device that keeps its state in plain values and counts what it is asked.
struct MockDevice {
    /// Extent of the surface the context holds.
    bound: Option<(i32, i32)>,
    /// Extent of the surface that was handed out.
    loose: Option<(i32, i32)>,
    /// Requests that the device refuses, by name.
    refused: Vec<&'static str>,
    /// Every request made, in order.
    calls: Vec<&'static str>,
    /// Surfaces destroyed.
    destroyed: u32,
    /// Surfaces given up without being destroyed.
    leaked: u32,
}

impl MockDevice {
    fn with_surface(width: i32, height: i32) -> MockDevice {
        MockDevice {
            bound: Some((width, height)),
            loose: None,
            refused: Vec::new(),
            calls: Vec::new(),
            destroyed: 0,
            leaked: 0,
        }
    }

    fn without_surface() -> MockDevice {
        let mut device = MockDevice::with_surface(0, 0);
        device.bound = None;
        device
    }

    fn refusing(mut self, request: &'static str) -> MockDevice {
        self.refused.push(request);
        self
    }

    fn refuses(&self, request: &'static str) -> bool {
        self.refused.contains(&request)
    }

    fn answer(&mut self, name: &'static str) -> Option<Report<String>> {
        self.calls.push(name);
        if self.refuses(name) {
            Some(Report::Failed(format!("{} refused", name)))
        } else {
            None
        }
    }

    fn perform(&mut self, request: Request) -> Report<String> {
        match request {
            Request::Unbind => {
                if let Some(refusal) = self.answer("unbind") {
                    return refusal;
                }
                match self.bound.take() {
                    Some(extent) => {
                        self.loose = Some(extent);
                        Report::Detached
                    }
                    None => Report::Vacant,
                }
            }
            Request::Inspect => {
                if let Some(refusal) = self.answer("inspect") {
                    return refusal;
                }
                let (width, height) = self.loose.expect("inspect without a surface");
                Report::Measured { width, height }
            }
            Request::Present => {
                assert!(self.loose.is_some(), "present without a surface");
                if let Some(refusal) = self.answer("present") {
                    return refusal;
                }
                Report::Done
            }
            Request::Resize { width, height } => {
                assert!(self.loose.is_some(), "resize without a surface");
                if let Some(refusal) = self.answer("resize") {
                    return refusal;
                }
                self.loose = Some((width, height));
                Report::Done
            }
            Request::Rebind => {
                assert!(self.loose.is_some(), "rebind without a surface");
                assert!(self.bound.is_none(), "rebind onto a bound context");
                if let Some(refusal) = self.answer("rebind") {
                    return refusal;
                }
                self.bound = self.loose.take();
                Report::Done
            }
            Request::Discard => {
                assert!(self.loose.is_some(), "discard without a surface");
                let refusal = self.answer("discard");
                self.loose = None;
                match refusal {
                    Some(refusal) => {
                        self.leaked += 1;
                        refusal
                    }
                    None => {
                        self.destroyed += 1;
                        Report::Done
                    }
                }
            }
        }
    }
}

/// Drives one run against the mock device, as a session drives it against the
/// real one.
fn drive(
    device: &mut MockDevice,
    operation: Operation,
) -> Result<Option<(i32, i32)>, Fault<String>> {
    let mut run = Run::<String>::start(operation);
    let mut requests = 0;
    while let Some(request) = run.request() {
        requests += 1;
        assert!(requests <= 4, "a run makes at most four requests");
        let report = device.perform(request);
        run = run.step(report);
    }
    assert!(device.loose.is_none(), "a run ended with the surface out of its context");
    run.verdict().expect("a run without a pending request is over")
}

fn back_buffer(device: &mut MockDevice) -> Result<[u32; 2], Fault<String>> {
    let measured = drive(device, Operation::Measure)?;
    let (width, height) = measured.expect("a measuring run reports an extent");
    Ok(report_extent(width, height))
}

fn swap_buffers(device: &mut MockDevice) -> Result<(), Fault<String>> {
    drive(device, Operation::Present).map(|_| ())
}

fn set_size(device: &mut MockDevice, size: [u32; 2]) -> Result<(), Fault<String>> {
    drive(device, Operation::Resize { width: size[0], height: size[1] }).map(|_| ())
}

#[test]
fn back_buffer_resize_swap_scenario() {
    let mut device = MockDevice::with_surface(800, 600);
    assert_eq!(back_buffer(&mut device), Ok([800, 600]));
    assert_eq!(set_size(&mut device, [1024, 768]), Ok(()));
    assert_eq!(back_buffer(&mut device), Ok([1024, 768]));
    assert_eq!(swap_buffers(&mut device), Ok(()));
    assert_eq!(back_buffer(&mut device), Ok([1024, 768]));
    assert_eq!(device.bound, Some((1024, 768)));
    assert_eq!(device.destroyed, 0);
    assert_eq!(device.leaked, 0);
}

#[test]
fn failed_present_is_reported_and_surface_is_rebound() {
    let mut device = MockDevice::with_surface(800, 600).refusing("present");
    assert_eq!(
        swap_buffers(&mut device),
        Err(Fault::Device("present refused".to_string()))
    );
    assert_eq!(device.calls, vec!["unbind", "present", "rebind"]);
    assert_eq!(device.bound, Some((800, 600)));
    assert_eq!(device.loose, None);
    assert_eq!(device.destroyed, 0);
    device.refused.clear();
    assert_eq!(swap_buffers(&mut device), Ok(()));
    assert_eq!(back_buffer(&mut device), Ok([800, 600]));
}

#[test]
fn failed_resize_keeps_size_and_binding() {
    let mut device = MockDevice::with_surface(640, 480).refusing("resize");
    assert_eq!(
        set_size(&mut device, [1280, 720]),
        Err(Fault::Device("resize refused".to_string()))
    );
    assert_eq!(device.calls, vec!["unbind", "resize", "rebind"]);
    assert_eq!(device.bound, Some((640, 480)));
    device.refused.clear();
    assert_eq!(back_buffer(&mut device), Ok([640, 480]));
}

#[test]
fn every_successful_operation_leaves_surface_bound() {
    let operations = [
        Operation::Measure,
        Operation::Present,
        Operation::Resize { width: 320, height: 200 },
    ];
    for operation in operations {
        let mut device = MockDevice::with_surface(100, 50);
        assert!(drive(&mut device, operation).is_ok());
        assert!(device.bound.is_some());
        assert!(device.loose.is_none());
    }
}

#[test]
fn requests_follow_protocol_order() {
    let mut device = MockDevice::with_surface(10, 20);
    back_buffer(&mut device).unwrap();
    assert_eq!(device.calls, vec!["unbind", "inspect", "rebind"]);

    let mut device = MockDevice::with_surface(10, 20);
    swap_buffers(&mut device).unwrap();
    assert_eq!(device.calls, vec!["unbind", "present", "rebind"]);

    let mut device = MockDevice::with_surface(10, 20);
    set_size(&mut device, [30, 40]).unwrap();
    assert_eq!(device.calls, vec!["unbind", "resize", "rebind"]);
}

#[test]
fn swap_does_not_change_size() {
    let mut device = MockDevice::with_surface(1920, 1080);
    let before = back_buffer(&mut device).unwrap();
    swap_buffers(&mut device).unwrap();
    swap_buffers(&mut device).unwrap();
    assert_eq!(back_buffer(&mut device).unwrap(), before);
}

#[test]
fn resize_then_back_buffer_reports_new_size() {
    for size in [[1, 1], [1024, 768], [0, 0], [i32::MAX as u32, 7], [u32::MAX, 0x8000_0000]] {
        let mut device = MockDevice::with_surface(800, 600);
        set_size(&mut device, size).unwrap();
        assert_eq!(back_buffer(&mut device), Ok(size));
    }
}

#[test]
fn oversized_request_reaches_device_wrapped() {
    let mut device = MockDevice::with_surface(800, 600);
    set_size(&mut device, [0x8000_0000, u32::MAX]).unwrap();
    assert_eq!(device.bound, Some((i32::MIN, -1)));
    assert_eq!(device.calls, vec!["unbind", "resize", "rebind"]);
}

#[test]
fn negative_extent_is_reported_wrapped() {
    let mut device = MockDevice::with_surface(-1, 5);
    assert_eq!(back_buffer(&mut device), Ok([u32::MAX, 5]));
}

#[test]
fn vacant_context_is_a_fault() {
    for operation in [Operation::Measure, Operation::Present, Operation::Resize { width: 1, height: 1 }] {
        let mut device = MockDevice::without_surface();
        assert_eq!(drive(&mut device, operation), Err(Fault::Vacant));
        assert_eq!(device.calls, vec!["unbind"]);
        assert_eq!(device.bound, None);
    }
}

#[test]
fn refused_unbind_ends_run_at_once() {
    let mut device = MockDevice::with_surface(4, 4).refusing("unbind");
    assert_eq!(
        swap_buffers(&mut device),
        Err(Fault::Device("unbind refused".to_string()))
    );
    assert_eq!(device.calls, vec!["unbind"]);
    assert_eq!(device.bound, Some((4, 4)));
}

#[test]
fn refused_inspect_still_rebinds() {
    let mut device = MockDevice::with_surface(4, 4).refusing("inspect");
    assert_eq!(
        back_buffer(&mut device),
        Err(Fault::Device("inspect refused".to_string()))
    );
    assert_eq!(device.calls, vec!["unbind", "inspect", "rebind"]);
    assert_eq!(device.bound, Some((4, 4)));
}

#[test]
fn refused_rebind_discards_surface() {
    let mut device = MockDevice::with_surface(4, 4).refusing("rebind");
    assert_eq!(
        swap_buffers(&mut device),
        Err(Fault::Device("rebind refused".to_string()))
    );
    assert_eq!(device.calls, vec!["unbind", "present", "rebind", "discard"]);
    assert_eq!(device.bound, None);
    assert_eq!(device.loose, None);
    assert_eq!(device.destroyed, 1);
    assert_eq!(swap_buffers(&mut device), Err(Fault::Vacant));
}

#[test]
fn first_refusal_is_the_one_reported() {
    let mut device = MockDevice::with_surface(4, 4)
        .refusing("present")
        .refusing("rebind")
        .refusing("discard");
    assert_eq!(
        swap_buffers(&mut device),
        Err(Fault::Device("present refused".to_string()))
    );
    assert_eq!(device.calls, vec!["unbind", "present", "rebind", "discard"]);
    assert_eq!(device.destroyed, 0);
    assert_eq!(device.leaked, 1);
}

#[test]
fn refused_discard_does_not_displace_cause() {
    let mut device = MockDevice::with_surface(4, 4).refusing("rebind").refusing("discard");
    assert_eq!(
        set_size(&mut device, [8, 8]),
        Err(Fault::Device("rebind refused".to_string()))
    );
    assert_eq!(device.bound, None);
}

#[test]
fn start_asks_for_unbind() {
    let run = Run::<String>::start(Operation::Present);
    assert_eq!(run.operation, Operation::Present);
    assert_eq!(run.phase, Phase::Detaching);
    assert_eq!(run.request(), Some(Request::Unbind));
    assert_eq!(run.verdict(), None);
}

#[test]
fn step_follows_transition_table() {
    let run = Run::<u8>::start(Operation::Resize { width: 3, height: 0x8000_0001 });
    let run = run.step(Report::Detached);
    assert_eq!(run.phase, Phase::Operating);
    assert_eq!(run.request(), Some(Request::Resize { width: 3, height: -0x7fff_ffff }));
    let run = run.step(Report::Done);
    assert_eq!(run.phase, Phase::Restoring { measured: None, failure: None });
    assert_eq!(run.request(), Some(Request::Rebind));
    let run = run.step(Report::Failed(9));
    assert_eq!(run.phase, Phase::Discarding { cause: 9 });
    assert_eq!(run.request(), Some(Request::Discard));
    let run = run.step(Report::Done);
    assert_eq!(run.phase, Phase::Finished(Err(Fault::Device(9))));
    assert_eq!(run.request(), None);
    assert_eq!(run.verdict(), Some(Err(Fault::Device(9))));
}

#[test]
fn measuring_run_keeps_reported_extent() {
    let run = Run::<u8>::start(Operation::Measure).step(Report::Detached);
    assert_eq!(run.request(), Some(Request::Inspect));
    let run = run.step(Report::Measured { width: 800, height: 600 });
    assert_eq!(
        run.phase,
        Phase::Restoring { measured: Some((800, 600)), failure: None }
    );
    let run = run.step(Report::Done);
    assert_eq!(run.verdict(), Some(Ok(Some((800, 600)))));
}

#[test]
fn stray_reports_change_nothing() {
    let run = Run::<u8>::start(Operation::Present);
    let run = run.step(Report::Done);
    assert_eq!(run.phase, Phase::Detaching);
    let run = run.step(Report::Measured { width: 1, height: 2 });
    assert_eq!(run.phase, Phase::Detaching);
    let run = run.step(Report::Detached).step(Report::Measured { width: 1, height: 2 });
    assert_eq!(run.phase, Phase::Operating);
    let run = run.step(Report::Vacant).step(Report::Detached);
    assert_eq!(run.phase, Phase::Operating);

    let run = Run::<u8>::start(Operation::Measure).step(Report::Detached).step(Report::Done);
    assert_eq!(run.phase, Phase::Operating);

    let run = Run::<u8>::start(Operation::Present)
        .step(Report::Detached)
        .step(Report::Done)
        .step(Report::Vacant);
    assert_eq!(run.phase, Phase::Restoring { measured: None, failure: None });

    let finished = Run::<u8>::start(Operation::Present).step(Report::Vacant);
    assert_eq!(finished.phase, Phase::Finished(Err(Fault::Vacant)));
    let finished = finished.step(Report::Done).step(Report::Failed(1));
    assert_eq!(finished.phase, Phase::Finished(Err(Fault::Vacant)));
}
