//! The URL-bar overlay script: an input field over the page that posts a
//! `change-url:` message on Enter.

use vstd::prelude::*;

verus! {

pub const URL_JS: &'static str = r#"
window.showUrlBar = function(initialUrl = "") {
    if (window.overlays.urlBar) window.overlays.urlBar.remove();

    console.log("Entered input mode");
    const input = document.createElement("input");
    input.id = "url-bar-overlay";
    input.type = "text";
    input.value = initialUrl;
    input.style.position = "fixed";
    input.style.top = "0";
    input.style.left = "50%";
    input.style.transform = "translateX(-50%)";
    input.style.width = "80%";
    input.style.padding = "0.5em";
    input.style.fontSize = "1rem";
    input.style.zIndex = 10000;
    input.style.background = "rgba(255,255,255,0.85)";
    input.style.color = '#000';
    input.style.border = "1px solid #ccc";
    input.style.outline = "none";

    document.body.appendChild(input);
    input.focus();
    window.overlays.urlBar = input;

    function remove() { input.remove(); window.overlays.urlBar = null; document.removeEventListener("keydown", escHandler); }
    function escHandler(e) { if (e.key === "Escape") remove(); }

    input.addEventListener("keydown", (e) => {
        if (e.key === "Enter") {
            window.ipc.postMessage("change-url:" + input.value);
            remove();
        } else if (e.key === "Escape") remove();
    });

    document.addEventListener("keydown", escHandler);
};
"#;

pub struct Url {}

impl Url {
    pub fn get_url(&self) -> (r: &'static str)
        ensures
            r@ == URL_JS@,
    {
        URL_JS
    }

    pub fn new() -> (r: Self) {
        Url {  }
    }
}

} // verus!
