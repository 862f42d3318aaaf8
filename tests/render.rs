use std::sync::Arc;
use honeyprint::print::Printer;
use honeyprint::render::{
    Delivery, RenderAction, RenderError, RenderEvent, RenderStage, RenderTask, Renderer,
};

fn renderer() -> Renderer {
    Renderer::new(1048576, 524288, "https://example.invalid/hook".to_string(), 5)
}

#[test]
fn renderer_settings() {
    let r = renderer();
    assert_eq!(r.webhook_url(), "https://example.invalid/hook");
    assert_eq!(r.timeout(), 5);
}

#[test]
fn printer_keeps_renderer() {
    let r = Arc::new(renderer());
    let p = Printer::new(r.clone());
    assert!(Arc::ptr_eq(p.renderer(), &r));
}

#[test]
fn raw_within_cap_is_forwarded_first() {
    let (task, action) = renderer().start(1048576);
    assert_eq!(action, RenderAction::ForwardRaw);
    assert_eq!(task.stage, RenderStage::Started);
    assert_eq!(task.raw, None);
}

#[test]
fn raw_over_cap_goes_straight_to_conversion() {
    let (task, action) = renderer().start(1048577);
    assert_eq!(action, RenderAction::Convert { deadline_secs: 5 });
    assert_eq!(task.stage, RenderStage::RawForwardAttempted);
    assert_eq!(task.raw, Some(Delivery::TooLarge));
}

#[test]
fn raw_sink_failure_is_recorded_and_conversion_follows() {
    let r = renderer();
    let (task, _) = r.start(10);
    let (task, action) = r.step(task, RenderEvent::RawForwarded { ok: false });
    assert_eq!(task.raw, Some(Delivery::SinkFailed));
    assert_eq!(action, RenderAction::Convert { deadline_secs: 5 });
}

#[test]
fn timeout_leaves_raw_outcome() {
    let r = renderer();
    for ok in [true, false] {
        let (task, _) = r.start(40);
        let (task, _) = r.step(task, RenderEvent::RawForwarded { ok });
        let raw = task.raw;
        let (task, action) = r.step(task, RenderEvent::ConversionTimedOut);
        assert_eq!(task.raw, raw);
        assert_eq!(task.stage, RenderStage::Done);
        assert_eq!(task.failure, Some(RenderError::ConversionTimeout));
        assert_eq!(task.converted, None);
        assert_eq!(action, RenderAction::Finish);
    }
}

#[test]
fn converter_failure_ends_task() {
    let r = renderer();
    let (task, _) = r.start(40);
    let (task, _) = r.step(task, RenderEvent::RawForwarded { ok: true });
    let (task, action) = r.step(task, RenderEvent::ConversionFailed);
    assert_eq!(task.failure, Some(RenderError::ConversionFailed));
    assert_eq!(task.raw, Some(Delivery::Sent));
    assert_eq!(action, RenderAction::Finish);
}

#[test]
fn oversized_artifact_is_not_forwarded() {
    let r = renderer();
    let (task, _) = r.start(40);
    let (task, _) = r.step(task, RenderEvent::RawForwarded { ok: true });
    let (task, action) = r.step(task, RenderEvent::Converted { size: 524289 });
    assert_ne!(action, RenderAction::ForwardConverted);
    assert_eq!(action, RenderAction::Finish);
    assert_eq!(task.stage, RenderStage::Done);
    assert_eq!(task.converted, Some(Delivery::TooLarge));
    assert_eq!(task.failure, Some(RenderError::ArtifactTooLarge));
}

#[test]
fn artifact_at_cap_is_forwarded() {
    let r = renderer();
    let (task, _) = r.start(40);
    let (task, _) = r.step(task, RenderEvent::RawForwarded { ok: true });
    let (task, action) = r.step(task, RenderEvent::Converted { size: 524288 });
    assert_eq!(action, RenderAction::ForwardConverted);
    assert_eq!(task.stage, RenderStage::ConversionOk);
}

#[test]
fn example_job_is_forwarded_raw_and_converted() {
    let r = renderer();
    let mut payload = b"%!PS-Adobe".to_vec();
    payload.resize(39, b' ');
    payload.push(4);
    assert_eq!(payload.len(), 40);
    let mut actions = Vec::new();
    let (task, action) = r.start(payload.len() as u64);
    actions.push(action);
    let (task, action) = r.step(task, RenderEvent::RawForwarded { ok: true });
    actions.push(action);
    let (task, action) = r.step(task, RenderEvent::Converted { size: 10000 });
    actions.push(action);
    let (task, action) = r.step(task, RenderEvent::ConvertedForwarded { ok: true });
    actions.push(action);
    assert_eq!(
        actions,
        vec![
            RenderAction::ForwardRaw,
            RenderAction::Convert { deadline_secs: 5 },
            RenderAction::ForwardConverted,
            RenderAction::Finish,
        ]
    );
    assert_eq!(
        task,
        RenderTask {
            stage: RenderStage::Done,
            raw: Some(Delivery::Sent),
            converted: Some(Delivery::Sent),
            failure: None,
        }
    );
}

#[test]
fn converted_sink_failure_is_recorded() {
    let r = renderer();
    let (task, _) = r.start(40);
    let (task, _) = r.step(task, RenderEvent::RawForwarded { ok: true });
    let (task, _) = r.step(task, RenderEvent::Converted { size: 1 });
    let (task, action) = r.step(task, RenderEvent::ConvertedForwarded { ok: false });
    assert_eq!(task.converted, Some(Delivery::SinkFailed));
    assert_eq!(task.stage, RenderStage::Done);
    assert_eq!(action, RenderAction::Finish);
}

#[test]
fn done_task_ignores_events() {
    let r = renderer();
    let (task, _) = r.start(40);
    let (task, _) = r.step(task, RenderEvent::RawForwarded { ok: true });
    let (done, _) = r.step(task, RenderEvent::ConversionTimedOut);
    for ev in [
        RenderEvent::RawForwarded { ok: true },
        RenderEvent::Converted { size: 1 },
        RenderEvent::ConversionTimedOut,
        RenderEvent::ConversionFailed,
        RenderEvent::ConvertedForwarded { ok: true },
    ] {
        assert_eq!(r.step(done, ev), (done, RenderAction::Ignore));
    }
}

#[test]
fn out_of_order_event_is_ignored() {
    let r = renderer();
    let (task, _) = r.start(40);
    assert_eq!(r.step(task, RenderEvent::Converted { size: 1 }), (task, RenderAction::Ignore));
}
