//! Frame-cycle scenarios: call order, per-frame effects, and the
//! ready-to-record invariant across consecutive frames.

use std::cell::RefCell;
use std::rc::Rc;

use gfx::canvas::{Canvas, Device, Factory, IntoCanvas, Renderer, Window};
use gfx::sim::{SimDevice, SimFactory, SimWindow};

type CallLog = Rc<RefCell<Vec<String>>>;

struct LoggingWindow {
    log: CallLog,
}

impl Window for LoggingWindow {
    fn swap_buffers(&mut self) {
        self.log.borrow_mut().push("swap_buffers".to_string());
    }
}

struct LoggingDevice {
    log: CallLog,
}

impl Device for LoggingDevice {
    fn submit(&mut self, buffer: &Vec<u64>) {
        self.log.borrow_mut().push(format!("submit{:?}", buffer));
    }

    fn after_frame(&mut self) {
        self.log.borrow_mut().push("after_frame".to_string());
    }
}

struct LoggingFactory {
    log: CallLog,
}

impl Factory for LoggingFactory {
    fn create_renderer(&mut self) -> Renderer {
        self.log.borrow_mut().push("create_renderer".to_string());
        Renderer::new()
    }

    fn cleanup(&mut self) {
        self.log.borrow_mut().push("cleanup".to_string());
    }
}

fn logging_canvas(log: &CallLog) -> Canvas<LoggingWindow, LoggingDevice, LoggingFactory> {
    (
        LoggingWindow { log: log.clone() },
        LoggingDevice { log: log.clone() },
        LoggingFactory { log: log.clone() },
    )
        .into_canvas()
}

fn sim_canvas() -> Canvas<SimWindow, SimDevice, SimFactory> {
    (
        SimWindow { swap_marks: Vec::new() },
        SimDevice { submissions: Vec::new(), frame_marks: Vec::new() },
        SimFactory { cleanup_marks: Vec::new() },
    )
        .into_canvas()
}

#[test]
fn into_canvas_leaves_renderer_ready_to_record() {
    let canvas = sim_canvas();
    assert!(canvas.renderer.as_buffer().is_empty());
}

#[test]
fn three_presents_keep_the_frame_order() {
    let log: CallLog = Rc::new(RefCell::new(Vec::new()));
    let mut canvas = logging_canvas(&log);
    canvas.renderer.record(1);
    canvas.present();
    canvas.renderer.record(2);
    canvas.renderer.record(3);
    canvas.present();
    canvas.present();
    let expected = vec![
        "create_renderer".to_string(),
        "submit[1]".to_string(),
        "swap_buffers".to_string(),
        "after_frame".to_string(),
        "cleanup".to_string(),
        "submit[2, 3]".to_string(),
        "swap_buffers".to_string(),
        "after_frame".to_string(),
        "cleanup".to_string(),
        "submit[]".to_string(),
        "swap_buffers".to_string(),
        "after_frame".to_string(),
        "cleanup".to_string(),
    ];
    assert_eq!(*log.borrow(), expected);
}

#[test]
fn present_resets_the_renderer_every_frame() {
    let mut canvas = sim_canvas();
    canvas.renderer.record(10);
    canvas.renderer.record(11);
    canvas.present();
    assert!(canvas.renderer.as_buffer().is_empty());
    canvas.renderer.record(12);
    canvas.present();
    assert!(canvas.renderer.as_buffer().is_empty());
    canvas.present();
    assert_eq!(
        canvas.device.submissions,
        vec![vec![10u64, 11], vec![12], vec![]]
    );
    assert_eq!(canvas.device.frame_marks.len(), 3);
    assert_eq!(canvas.output.swap_marks.len(), 3);
    assert_eq!(canvas.factory.cleanup_marks.len(), 3);
}

#[test]
fn access_exposes_renderer_and_output_for_recording() {
    let mut canvas = sim_canvas();
    {
        let (renderer, output) = canvas.access();
        assert_eq!(output.swap_marks.len(), 0);
        renderer.record(7);
    }
    assert_eq!(canvas.get_output().swap_marks.len(), 0);
    canvas.present();
    assert_eq!(canvas.device.submissions, vec![vec![7u64]]);
}
