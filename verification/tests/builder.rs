use web_view::{builder, Content, Error, WebViewBuilder};

type Plain<'a> = WebViewBuilder<'a, u32, u8, &'a str>;

#[test]
fn builder_starts_from_the_initial_configuration() {
    let b: Plain = WebViewBuilder::new();
    assert_eq!(b.title, "Application");
    assert!(b.content.is_none());
    assert_eq!((b.width, b.height), (800, 600));
    assert!(b.resizable);
    assert_eq!(b.debug, None);
    assert!(b.invoke_handler.is_none());
    assert!(b.user_data.is_none());
    assert!(!b.frameless);
    assert!(b.visible);
    assert_eq!((b.min_width, b.min_height), (300, 300));
}

#[test]
fn default_and_builder_agree_with_new() {
    let d: Plain = WebViewBuilder::default();
    let f: Plain = builder();
    for b in [d, f] {
        assert_eq!(b.title, "Application");
        assert_eq!((b.width, b.height), (800, 600));
        assert_eq!((b.min_width, b.min_height), (300, 300));
        assert!(b.resizable && b.visible && !b.frameless);
        assert_eq!(b.debug, None);
        assert!(b.content.is_none() && b.user_data.is_none() && b.invoke_handler.is_none());
    }
}

#[test]
fn setters_change_their_own_fields() {
    let b: Plain = WebViewBuilder::new()
        .title("T")
        .content(Content::Url("u"))
        .size(1, 2)
        .resizable(false)
        .debug(true)
        .frameless(true)
        .visible(false)
        .min_size(3, 4)
        .invoke_handler(9)
        .user_data(10);
    assert_eq!(b.title, "T");
    assert_eq!(b.content, Some(Content::Url("u")));
    assert_eq!((b.width, b.height), (1, 2));
    assert!(!b.resizable);
    assert_eq!(b.debug, Some(true));
    assert!(b.frameless);
    assert!(!b.visible);
    assert_eq!((b.min_width, b.min_height), (3, 4));
    assert_eq!(b.invoke_handler, Some(9));
    assert_eq!(b.user_data, Some(10));
}

#[test]
fn build_hands_on_the_whole_configuration() {
    let launch = Plain::new()
        .title("Minimal")
        .content(Content::Url("https://example.org/"))
        .size(640, 480)
        .resizable(false)
        .debug(true)
        .frameless(true)
        .visible(false)
        .min_size(100, 50)
        .user_data(7)
        .invoke_handler(1)
        .build()
        .unwrap();
    assert_eq!(launch.window.title.as_bytes(), b"Minimal");
    assert_eq!(launch.window.url.as_bytes(), b"https://example.org/");
    assert_eq!((launch.window.width, launch.window.height), (640, 480));
    assert!(!launch.window.resizable);
    assert_eq!(launch.window.debug, Some(true));
    assert!(launch.window.frameless);
    assert!(!launch.window.visible);
    assert_eq!((launch.window.min_width, launch.window.min_height), (100, 50));
    assert_eq!(launch.user_data, 7);
    assert_eq!(launch.invoke_handler, 1);
}

#[test]
fn build_resolves_html_to_a_data_url() {
    let launch = WebViewBuilder::new()
        .content(Content::Html(String::from("<h1>Hi</h1>")))
        .user_data(())
        .invoke_handler(())
        .build()
        .unwrap();
    assert_eq!(launch.window.url.as_bytes(), b"data:text/html,%3Ch1%3EHi%3C%2Fh1%3E");
    assert_eq!(launch.window.title.as_bytes(), b"Application");
    assert_eq!(launch.window.debug, None);
}

#[test]
fn debug_can_be_set_off_as_well_as_on() {
    let b: Plain = WebViewBuilder::new().debug(false);
    assert_eq!(b.debug, Some(false));
    let b: Plain = b.debug(true);
    assert_eq!(b.debug, Some(true));
}

#[test]
fn build_succeeds_exactly_when_all_three_are_set() {
    for mask in 0..8u8 {
        let mut b: Plain = WebViewBuilder::new();
        if mask & 1 != 0 {
            b = b.content(Content::Url("about:blank"));
        }
        if mask & 2 != 0 {
            b = b.user_data(0);
        }
        if mask & 4 != 0 {
            b = b.invoke_handler(0);
        }
        let expected = if mask & 1 == 0 {
            Some("content")
        } else if mask & 2 == 0 {
            Some("user_data")
        } else if mask & 4 == 0 {
            Some("invoke_handler")
        } else {
            None
        };
        match (b.build(), expected) {
            (Ok(_), None) => {}
            (Err(Error::UninitializedField(name)), Some(field)) => assert_eq!(name, field),
            (other, _) => panic!("{:?}", other.map(|_| ())),
        }
    }
}

#[test]
fn build_checks_the_title_before_anything_else() {
    let b: Plain = WebViewBuilder::new().title("a\0");
    assert!(matches!(b.build(), Err(Error::NulByte(1))));
    let b: Plain = WebViewBuilder::new()
        .title("\0")
        .content(Content::Url("u"))
        .user_data(0)
        .invoke_handler(0);
    assert!(matches!(b.build(), Err(Error::NulByte(0))));
}

#[test]
fn build_checks_the_url_before_user_data_and_handler() {
    let b: Plain = WebViewBuilder::new().content(Content::Url("ab\0"));
    assert!(matches!(b.build(), Err(Error::NulByte(2))));
}

#[test]
fn html_with_a_nul_byte_is_accepted_because_it_is_escaped() {
    let launch = WebViewBuilder::new()
        .content(Content::Html("a\0b"))
        .user_data(())
        .invoke_handler(())
        .build()
        .unwrap();
    assert_eq!(launch.window.url.as_bytes(), b"data:text/html,a%00b");
}
