use zed_acp::ui::{AgentPanel, MessageView, PromptInput};

#[test]
fn panel_reports_what_it_does() {
    let panel = AgentPanel::new();
    assert_eq!(panel.show(), "Agent panel shown");
    assert_eq!(panel.conceal(), "Agent panel hidden");
    assert_eq!(panel.update_content("three lines"), "Panel content updated: three lines");
    assert_eq!(panel.update_content(""), "Panel content updated: ");
}

#[test]
fn message_view_reports_what_it_renders() {
    let view = MessageView::new();
    assert_eq!(view.render_message("hello"), "Message rendered: hello");
}

#[test]
fn prompt_input_holds_no_text() {
    let input = PromptInput::new();
    assert_eq!(input.get_text(), "");
    assert_eq!(input.clear(), "Input cleared");
}
