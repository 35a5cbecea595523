use hatchery::render_pass::{frame_plan, FrameRecorder, FrameStep, UI_SUBPASS, VIEWPORT_SUBPASS};

#[test]
fn frame_plan_order() {
    assert_eq!(
        frame_plan(),
        vec![
            FrameStep::AcquireImage,
            FrameStep::CreateFramebuffer,
            FrameStep::BeginRenderPass,
            FrameStep::DrawScene,
            FrameStep::NextSubpass,
            FrameStep::ExecuteUi,
            FrameStep::EndRenderPass,
            FrameStep::BuildCommandBuffer,
            FrameStep::Submit,
            FrameStep::Present,
        ]
    );
}

#[test]
fn every_frame_has_one_render_pass_and_the_ui_subpass() {
    let mut rec = FrameRecorder::new();
    for _ in 0..3 {
        assert!(rec.at_frame_start());
        let mut steps = Vec::new();
        loop {
            steps.push(rec.next_step());
            if rec.at_frame_start() {
                break;
            }
        }
        let count = |s: FrameStep| steps.iter().filter(|x| **x == s).count();
        assert_eq!(count(FrameStep::BeginRenderPass), 1);
        assert_eq!(count(FrameStep::EndRenderPass), 1);
        assert_eq!(count(FrameStep::NextSubpass), 1);
        assert_eq!(count(FrameStep::ExecuteUi), 1);
        let pos = |s: FrameStep| steps.iter().position(|x| *x == s).unwrap();
        assert!(pos(FrameStep::BeginRenderPass) < pos(FrameStep::DrawScene));
        assert!(pos(FrameStep::DrawScene) < pos(FrameStep::NextSubpass));
        assert!(pos(FrameStep::NextSubpass) < pos(FrameStep::ExecuteUi));
        assert!(pos(FrameStep::ExecuteUi) < pos(FrameStep::EndRenderPass));
        assert!(pos(FrameStep::EndRenderPass) < pos(FrameStep::Present));
    }
}

#[test]
fn current_subpass_follows_steps() {
    let mut rec = FrameRecorder::new();
    let mut seen = Vec::new();
    for _ in 0..10 {
        let step = rec.next_step();
        seen.push((step, rec.current_subpass()));
    }
    assert_eq!(seen[2], (FrameStep::BeginRenderPass, Some(VIEWPORT_SUBPASS)));
    assert_eq!(seen[3], (FrameStep::DrawScene, Some(VIEWPORT_SUBPASS)));
    assert_eq!(seen[4], (FrameStep::NextSubpass, Some(UI_SUBPASS)));
    assert_eq!(seen[5], (FrameStep::ExecuteUi, Some(UI_SUBPASS)));
    assert_eq!(seen[6], (FrameStep::EndRenderPass, None));
    assert_eq!(seen[9], (FrameStep::Present, None));
    assert_eq!(seen[0], (FrameStep::AcquireImage, None));
}
