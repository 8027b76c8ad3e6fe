//! The link-hint overlay script: labels clickable elements with short
//! base36 tags so they can be followed from the keyboard.

use vstd::prelude::*;

verus! {

pub const HINT_JS: &'static str = r#"

window.hintState = {
  active: false,
  hints: [],
  buffer: ""
};

window.showHints = function() {
  window.clearHints();
  window.hintState.active = true;
  window.hintState.buffer = "";

  const links = document.querySelectorAll("a, button, [role='link']");
  let index = 0;

  links.forEach(link => {
    const label = index.toString(36);
    index++;

    const rect = link.getBoundingClientRect();
    if (rect.width === 0 && rect.height === 0) return;

    const hint = document.createElement("div");
    hint.className = "pey-hint";
    hint.innerText = label.toUpperCase();
    hint.style.position = "absolute";
    hint.style.left = `${window.scrollX + rect.left}px`;
    hint.style.top = `${window.scrollY + rect.top}px`;
    hint.style.background = "red";
    hint.style.color = "white";
    hint.style.fontSize = "12px";
    hint.style.fontWeight = "bold";
    hint.style.padding = "2px 4px";
    hint.style.borderRadius = "3px";
    hint.style.zIndex = 99999;

    document.body.appendChild(hint);

    window.hintState.hints.push({ label: label.toUpperCase(), link, hint });
  });
};

window.clearHints = function() {
  window.hintState.hints.forEach(h => h.hint.remove());
  window.hintState.hints = [];
  window.hintState.active = false;
  window.hintState.buffer = "";
};
"#;

pub struct Hint {}

impl Hint {
    pub fn get_js() -> (r: &'static str)
        ensures
            r@ == HINT_JS@,
    {
        HINT_JS
    }
}

} // verus!
