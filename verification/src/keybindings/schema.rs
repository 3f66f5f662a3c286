//! The JSON schema of the user's bindings file, for editors that complete it.

use vstd::prelude::*;

verus! {

/// A JSON schema, draft 7.
pub const USER_BINDINGS_JSON_SCHEMA: &'static str = r##"{
  "$schema": "http://json-schema.org/draft-07/schema#",
  "title": "attacode user keybindings",
  "type": "object",
  "properties": {
    "bindings": {
      "type": "array",
      "items": {
        "type": "object",
        "required": ["shortcut", "action"],
        "properties": {
          "shortcut": {
            "type": "string",
            "description": "Single shortcut (e.g. 'Ctrl+P', 'F5', 'Esc') OR a chord (whitespace-separated, e.g. 'Ctrl+X Ctrl+C').",
            "examples": ["Ctrl+P", "Esc", "F5", "Ctrl+X Ctrl+C"]
          },
          "action": {
            "type": "string",
            "description": "Action name (consumer-defined). Common namespaces: editor.* / repl.* / ask.* / slash.*",
            "examples": [
              "editor.submit",
              "editor.history.prev",
              "repl.cancel",
              "ask.confirm"
            ]
          },
          "description": {
            "type": "string"
          }
        }
      }
    }
  }
}
"##;

} // verus!
