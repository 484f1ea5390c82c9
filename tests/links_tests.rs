use mcp_web::links::extract_links;
use mcp_web::url::WebUrl;

fn base(s: &str) -> WebUrl {
    WebUrl::parse(s).unwrap()
}

#[test]
fn test_extract_links_basic() {
    let html = r#"
        <html>
            <body>
                <a href="https://example.com">Example</a>
            </body>
        </html>
    "#;
    let links = extract_links(html, &base("https://example.com"));
    assert_eq!(links.len(), 1);
    assert_eq!(links[0].text, "Example");
    assert_eq!(links[0].href, "https://example.com/");
}

#[test]
fn test_extract_links_relative() {
    let html = r#"
        <html>
            <body>
                <a href="/about">About</a>
                <a href="contact">Contact</a>
            </body>
        </html>
    "#;
    let links = extract_links(html, &base("https://example.com/path/"));
    assert_eq!(links.len(), 2);
    assert_eq!(links[0].text, "About");
    assert_eq!(links[0].href, "https://example.com/about");
    assert_eq!(links[1].text, "Contact");
    assert_eq!(links[1].href, "https://example.com/path/contact");
}

#[test]
fn test_extract_links_duplicate() {
    let html = r#"
        <html>
            <body>
                <a href="https://example.com">First</a>
                <a href="https://example.com">Second</a>
            </body>
        </html>
    "#;
    let links = extract_links(html, &base("https://example.com"));
    assert_eq!(links.len(), 1);
    assert_eq!(links[0].text, "First");
}

#[test]
fn test_extract_links_empty_text() {
    let html = r#"
        <html>
            <body>
                <a href="https://example.com"></a>
            </body>
        </html>
    "#;
    let links = extract_links(html, &base("https://example.com"));
    assert_eq!(links.len(), 1);
    assert_eq!(links[0].text, "[link]");
}

#[test]
fn test_extract_links_whitespace_text() {
    let html = r#"
        <html>
            <body>
                <a href="https://example.com">   </a>
            </body>
        </html>
    "#;
    let links = extract_links(html, &base("https://example.com"));
    assert_eq!(links.len(), 1);
    assert_eq!(links[0].text, "[link]");
}

#[test]
fn test_extract_links_multiline_text() {
    let html = r#"
        <html>
            <body>
                <a href="https://example.com">
                    Line 1
                    Line 2
                </a>
            </body>
        </html>
    "#;
    let links = extract_links(html, &base("https://example.com"));
    assert_eq!(links.len(), 1);
    assert!(links[0].text.contains("Line 1"));
    assert!(links[0].text.contains("Line 2"));
}

#[test]
fn test_extract_links_invalid_url() {
    let html = r#"
        <html>
            <body>
                <a href=":not-a-url">Invalid</a>
                <a href="https://example.com">Valid</a>
            </body>
        </html>
    "#;
    let links = extract_links(html, &base("https://example.com"));
    assert_eq!(links.len(), 2);
}

#[test]
fn test_extract_links_no_links() {
    let html = r#"
        <html>
            <body>
                <p>No links here</p>
            </body>
        </html>
    "#;
    let links = extract_links(html, &base("https://example.com"));
    assert!(links.is_empty());
}

#[test]
fn test_extract_links_fragment() {
    let html = r##"
        <html>
            <body>
                <a href="#section">Section</a>
            </body>
        </html>
    "##;
    let links = extract_links(html, &base("https://example.com"));
    assert_eq!(links.len(), 1);
    assert_eq!(links[0].href, "https://example.com/#section");
}

#[test]
fn test_extract_links_query() {
    let html = r#"
        <html>
            <body>
                <a href="/search?q=test">Search</a>
            </body>
        </html>
    "#;
    let links = extract_links(html, &base("https://example.com"));
    assert_eq!(links.len(), 1);
    assert_eq!(links[0].href, "https://example.com/search?q=test");
}

#[test]
fn links_join_text_nodes_with_spaces() {
    let html = r#"<a href="/x">One<b>Two</b></a><a href="/y"> <i></i> </a>"#;
    let links = extract_links(html, &base("https://example.com/dir/page"));
    assert_eq!(links.len(), 2);
    assert_eq!(links[0].text, "One Two");
    assert_eq!(links[0].href, "https://example.com/x");
    assert_eq!(links[1].text, "[link]");
}
