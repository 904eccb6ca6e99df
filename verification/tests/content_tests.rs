use present_loop::content::ContentStore;

fn store() -> ContentStore {
    ContentStore::new(
        b"<main>{{{body}}}</main>".to_vec(),
        b"<guide>{{{body}}}</guide>".to_vec(),
    )
    .expect("plain templates are accepted")
}

#[test]
fn main_page_expands_body_into_main_template() {
    let mut s = store();
    let page = s.main_page(&b"hello".to_vec()).expect("renders");
    assert_eq!(page, b"<main>hello</main>".to_vec());
}

#[test]
fn escaped_tag_escapes_html() {
    let mut s = ContentStore::new(b"[{{body}}]".to_vec(), b"g".to_vec()).expect("accepted");
    let page = s.main_page(&b"<b>&".to_vec()).expect("renders");
    assert_eq!(page, b"[&lt;b&gt;&amp;]".to_vec());
}

#[test]
fn guide_page_expands_through_both_templates() {
    let mut s = store();
    let page = s.guide_page(&b"inner".to_vec()).expect("renders");
    assert_eq!(page, b"<main><guide>inner</guide></main>".to_vec());
}

#[test]
fn guide_markdown_page_renders_markdown_first() {
    let mut s = store();
    let page = s.guide_markdown_page(&b"# Title".to_vec()).expect("renders");
    assert_eq!(page, b"<main><guide><h1>Title</h1>\n</guide></main>".to_vec());
}

#[test]
fn each_body_is_rendered_once() {
    let mut s = store();
    let first = s.main_page(&b"same".to_vec()).expect("renders");
    assert_eq!(s.main_cache.len(), 1);
    let second = s.main_page(&b"same".to_vec()).expect("served from cache");
    assert_eq!(s.main_cache.len(), 1);
    assert_eq!(first, second);
    s.main_page(&b"other".to_vec()).expect("renders");
    assert_eq!(s.main_cache.len(), 2);
}

#[test]
fn markdown_and_guide_levels_are_cached_separately() {
    let mut s = store();
    s.guide_markdown_page(&b"text".to_vec()).expect("renders");
    assert_eq!(s.markdown_cache.len(), 1);
    assert_eq!(s.guide_cache.len(), 1);
    assert_eq!(s.main_cache.len(), 1);
    s.guide_markdown_page(&b"text".to_vec()).expect("cached");
    assert_eq!(s.markdown_cache.len(), 1);
    assert_eq!(s.guide_cache.len(), 1);
    assert_eq!(s.main_cache.len(), 1);
}

#[test]
fn partial_tag_is_refused() {
    assert!(ContentStore::new(b"{{> other}}".to_vec(), b"g".to_vec()).is_none());
    assert!(ContentStore::new(b"m".to_vec(), b"a {{> other}} b".to_vec()).is_none());
}

#[test]
fn set_delimiter_tag_is_refused() {
    assert!(ContentStore::new(b"{{=< >=}} <body>".to_vec(), b"g".to_vec()).is_none());
}

#[test]
fn implicit_tag_is_refused() {
    // an implicit tag names the whole data map, which the engine rejects
    assert!(ContentStore::new(b"{{.}}".to_vec(), b"g".to_vec()).is_none());
    assert!(ContentStore::new(b"a {{ . }} b".to_vec(), b"g".to_vec()).is_none());
    assert!(ContentStore::new(b"{{{.}}}".to_vec(), b"g".to_vec()).is_none());
    assert!(ContentStore::new(b"{{&.}}".to_vec(), b"g".to_vec()).is_none());
    assert!(ContentStore::new(b"m".to_vec(), b"{{.}}".to_vec()).is_none());
}

#[test]
fn unclosed_tag_fails_to_render() {
    let mut s = ContentStore::new(b"<main>{{body".to_vec(), b"g".to_vec()).expect("plainly tagged");
    assert!(s.main_page(&b"x".to_vec()).is_none());
}
