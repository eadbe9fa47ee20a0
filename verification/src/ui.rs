//! The agent panel of the host's interface, as far as the library is
//! concerned: what each widget reports when it acts. The library shows
//! nothing itself; the lines go to whoever draws the interface.

use vstd::prelude::*;
use vstd::string::*;

verus! {

/// The panel in which a conversation is shown.
#[derive(Debug)]
pub struct AgentPanel {}

impl AgentPanel {
    /// A panel.
    pub fn new() -> (result: AgentPanel) {
        AgentPanel {  }
    }

    /// The line reported when the panel is shown.
    pub fn show(&self) -> (result: String)
        ensures
            result@ == "Agent panel shown"@,
    {
        "Agent panel shown".to_owned()
    }

    /// The line reported when the panel is hidden.
    pub fn conceal(&self) -> (result: String)
        ensures
            result@ == "Agent panel hidden"@,
    {
        "Agent panel hidden".to_owned()
    }

    /// The line reported when the panel gets new content.
    pub fn update_content(&self, content: &str) -> (result: String)
        ensures
            result@ == "Panel content updated: "@ + content@,
    {
        let mut result = "Panel content updated: ".to_owned();
        result.append(content);
        result
    }
}

/// The view of one message in the panel.
#[derive(Debug)]
pub struct MessageView {}

impl MessageView {
    /// A view.
    pub fn new() -> (result: MessageView) {
        MessageView {  }
    }

    /// The line reported when a message is rendered.
    pub fn render_message(&self, message: &str) -> (result: String)
        ensures
            result@ == "Message rendered: "@ + message@,
    {
        let mut result = "Message rendered: ".to_owned();
        result.append(message);
        result
    }
}

/// The field in which a prompt is typed.
#[derive(Debug)]
pub struct PromptInput {}

impl PromptInput {
    /// An empty field.
    pub fn new() -> (result: PromptInput) {
        PromptInput {  }
    }

    /// The text in the field: there is none.
    pub fn get_text(&self) -> (result: String)
        ensures
            result@.len() == 0,
    {
        String::new()
    }

    /// The line reported when the field is cleared.
    pub fn clear(&self) -> (result: String)
        ensures
            result@ == "Input cleared"@,
    {
        "Input cleared".to_owned()
    }
}

} // verus!
