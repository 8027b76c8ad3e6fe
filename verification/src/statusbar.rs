//! The status-bar overlay script: a fixed bar at the bottom of the page and
//! the `window.updateStatus` hook the key handler drives.

use vstd::prelude::*;

verus! {

pub const STATUSBAR_JS: &'static str = r#"
const initStatusBar = () => {
  const statusBar = document.createElement("div");
  statusBar.id = "peyvand-statusbar";
  Object.assign(statusBar.style, {
    position: "fixed",
    bottom: "0px",
    left: "0px",
    width: "100%",
    height: "24px",
    backgroundColor: "rgba(0,0,0,0.8)",
    color: "white",
    fontFamily: "monospace",
    fontSize: "14px",
    paddingLeft: "4px",
    lineHeight: "24px",
    zIndex: "999999",
  });
  statusBar.innerText = "Normal";
  document.body.appendChild(statusBar);

  window.updateStatus = (text) => {
    statusBar.innerText = text;
  };
};

if (document.readyState === "loading") {
  document.addEventListener("DOMContentLoaded", initStatusBar);
} else {
  initStatusBar();
}"#;

pub struct Statusbar {}

impl Statusbar {
    pub fn get_statusbar(&self) -> (r: &'static str)
        ensures
            r@ == STATUSBAR_JS@,
    {
        STATUSBAR_JS
    }

    pub fn new() -> (r: Self) {
        Statusbar {  }
    }
}

} // verus!
