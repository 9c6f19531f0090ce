use azer::application::{build_command_lists, CLEAR_GREY};
use azer::event::Extent;
use azer::layer_stack::LayerStack;
use azer::new_layer::NewLayer;
use azer::renderer::{ClearColor, RenderCommand, Renderer};

#[test]
fn recording_is_reusable_after_submit() {
    let viewport = Extent { width: 800, height: 600 };
    let mut renderer = Renderer::new(viewport);
    assert!(!renderer.is_recording());
    let black = ClearColor { r: 0, g: 0, b: 0, a: 255 };
    renderer.begin(1, black);
    assert!(renderer.is_recording());
    renderer.draw_triangle();
    renderer.end();
    assert!(!renderer.is_recording());
    let first = renderer.submit();
    assert_eq!(
        first.commands,
        vec![
            RenderCommand::BeginRenderPass { framebuffer: 1, clear_color: black },
            RenderCommand::DrawTriangle { viewport },
            RenderCommand::EndRenderPass,
        ]
    );
    let second = renderer.submit();
    assert!(second.commands.is_empty());
}

#[test]
fn recreated_pipeline_draws_with_the_new_viewport() {
    let mut renderer = Renderer::new(Extent { width: 800, height: 600 });
    let bigger = Extent { width: 1280, height: 720 };
    renderer.recreate_pipeline(bigger);
    assert_eq!(renderer.viewport(), bigger);
    renderer.begin(0, ClearColor { r: 0, g: 0, b: 0, a: 0 });
    renderer.draw_triangle();
    renderer.end();
    let list = renderer.submit();
    assert_eq!(list.commands[1], RenderCommand::DrawTriangle { viewport: bigger });
}

#[test]
fn one_command_list_per_framebuffer_in_order() {
    let viewport = Extent { width: 1280, height: 720 };
    let mut renderer = Renderer::new(viewport);
    let mut stack = LayerStack::new();
    stack.push(NewLayer);
    let lists = build_command_lists(&mut renderer, &mut stack, 3);
    assert_eq!(lists.len(), 3);
    let grey = ClearColor { r: CLEAR_GREY, g: CLEAR_GREY, b: CLEAR_GREY, a: 255 };
    for (i, list) in lists.iter().enumerate() {
        assert_eq!(
            list.commands,
            vec![
                RenderCommand::BeginRenderPass { framebuffer: i, clear_color: grey },
                RenderCommand::DrawTriangle { viewport },
                RenderCommand::EndRenderPass,
            ]
        );
    }
    assert!(!renderer.is_recording());
}

#[test]
fn no_framebuffers_no_command_lists() {
    let mut renderer = Renderer::new(Extent { width: 1, height: 1 });
    let mut stack: LayerStack<NewLayer> = LayerStack::new();
    let lists = build_command_lists(&mut renderer, &mut stack, 0);
    assert!(lists.is_empty());
}
