//! Headless rendering of script-heavy pages: options, results and the
//! interface a rendering engine implements.
use vstd::prelude::*;
use crate::url::WebUrl;

verus! {

/// Why rendering failed.
#[derive(Debug, Clone, PartialEq, Eq)]
pub enum RenderError {
    BrowserLaunch(String),
    Navigation(String),
    ContentRetrieval(String),
    /// Timed out after this many milliseconds.
    Timeout(u64),
    SelectorNotFound(String),
    BrowserClosed,
}

/// Options of one render.
#[derive(Debug)]
pub struct RenderOptions {
    /// Timeout in milliseconds.
    pub timeout_ms: u64,
    /// A CSS selector to wait for before reading the page.
    pub wait_for: Option<String>,
    /// Viewport width and height.
    pub viewport: (u32, u32),
}

impl Default for RenderOptions {
    fn default() -> (r: RenderOptions)
        ensures
            r.timeout_ms == 30000,
            r.wait_for is None,
            r.viewport == (1280u32, 720u32),
    {
        RenderOptions { timeout_ms: 30000, wait_for: None, viewport: (1280, 720) }
    }
}

/// A rendered page.
#[derive(Debug)]
pub struct RenderedPage {
    pub html: String,
    pub final_url: WebUrl,
    pub render_time_ms: u64,
}

/// A rendering engine.
pub trait Renderer {
    /// Renders `url` to HTML.
    fn render(&self, url: &WebUrl, opts: &RenderOptions) -> Result<RenderedPage, RenderError>;
}

} // verus!
