//! The configuration of a web view, and its validation.

use vstd::prelude::*;
use vstd::string::StringSliceAdditionalSpecFns;
use vstd::utf8::encode_utf8;
use crate::command::WindowSpec;
use crate::content::{Content, Text};
use crate::error::{Error, ErrorView};
use crate::native::{first_nul, NativeString};

verus! {

/// Builder for a web view: the configuration as it accumulates.
///
/// `T` is the user data, `I` the invoke handler and `C` the text that holds
/// the content.
pub struct WebViewBuilder<'a, T, I, C> {
    pub title: &'a str,
    pub content: Option<Content<C>>,
    pub width: i32,
    pub height: i32,
    pub resizable: bool,
    /// Whether the engine's debugging aids are on; `None` until it is set,
    /// which stands for what the host's build profile says.
    pub debug: Option<bool>,
    pub invoke_handler: Option<I>,
    pub user_data: Option<T>,
    pub frameless: bool,
    pub visible: bool,
    pub min_width: i32,
    pub min_height: i32,
}

/// A configuration that passed validation: what the adapter needs to
/// create the window, and what the view will own.
pub struct Launch<T, I> {
    pub window: WindowSpec,
    pub user_data: T,
    pub invoke_handler: I,
}

impl<'a, T, I, C> WebViewBuilder<'a, T, I, C> {
    /// The configuration that a builder starts from: a resizable, framed,
    /// visible window of 800 by 600 that may shrink to 300 by 300, titled
    /// "Application", with debugging left to the host's build profile and
    /// nothing else set.
    pub open spec fn initial() -> Self {
        WebViewBuilder {
            title: "Application",
            content: None,
            width: 800,
            height: 600,
            resizable: true,
            debug: None,
            invoke_handler: None,
            user_data: None,
            frameless: false,
            visible: true,
            min_width: 300,
            min_height: 300,
        }
    }
}

impl<'a, T, I, C> Default for WebViewBuilder<'a, T, I, C> {
    fn default() -> (r: Self)
        ensures
            r == Self::initial(),
    {
        WebViewBuilder {
            title: "Application",
            content: None,
            width: 800,
            height: 600,
            resizable: true,
            debug: None,
            invoke_handler: None,
            user_data: None,
            frameless: false,
            visible: true,
            min_width: 300,
            min_height: 300,
        }
    }
}

impl<'a, T, I, C> WebViewBuilder<'a, T, I, C> {
    /// A builder with the initial configuration.
    pub fn new() -> (r: Self)
        ensures
            r == Self::initial(),
    {
        WebViewBuilder {
            title: "Application",
            content: None,
            width: 800,
            height: 600,
            resizable: true,
            debug: None,
            invoke_handler: None,
            user_data: None,
            frameless: false,
            visible: true,
            min_width: 300,
            min_height: 300,
        }
    }

    /// Sets the title of the window.
    pub fn title(self, title: &'a str) -> (r: Self)
        ensures
            r == (WebViewBuilder { title, ..self }),
    {
        let mut builder = self;
        builder.title = title;
        builder
    }

    /// Sets the content: a URL or a string of HTML.
    pub fn content(self, content: Content<C>) -> (r: Self)
        ensures
            r == (WebViewBuilder { content: Some(content), ..self }),
    {
        let mut builder = self;
        builder.content = Some(content);
        builder
    }

    /// Sets the size of the window.
    pub fn size(self, width: i32, height: i32) -> (r: Self)
        ensures
            r == (WebViewBuilder { width, height, ..self }),
    {
        let mut builder = self;
        builder.width = width;
        builder.height = height;
        builder
    }

    /// Says whether the window can be resized.
    pub fn resizable(self, resizable: bool) -> (r: Self)
        ensures
            r == (WebViewBuilder { resizable, ..self }),
    {
        let mut builder = self;
        builder.resizable = resizable;
        builder
    }

    /// Turns the engine's debugging aids on or off, whatever the build
    /// profile.
    pub fn debug(self, debug: bool) -> (r: Self)
        ensures
            r == (WebViewBuilder { debug: Some(debug), ..self }),
    {
        let mut builder = self;
        builder.debug = Some(debug);
        builder
    }

    /// Says whether the window has no frame.
    pub fn frameless(self, frameless: bool) -> (r: Self)
        ensures
            r == (WebViewBuilder { frameless, ..self }),
    {
        let mut builder = self;
        builder.frameless = frameless;
        builder
    }

    /// Says whether the window is shown when it is created.
    pub fn visible(self, visible: bool) -> (r: Self)
        ensures
            r == (WebViewBuilder { visible, ..self }),
    {
        let mut builder = self;
        builder.visible = visible;
        builder
    }

    /// Sets the smallest size that the window can be given.
    pub fn min_size(self, width: i32, height: i32) -> (r: Self)
        ensures
            r == (WebViewBuilder { min_width: width, min_height: height, ..self }),
    {
        let mut builder = self;
        builder.min_width = width;
        builder.min_height = height;
        builder
    }

    /// Sets the invoke handler, which is called with each message that the
    /// page sends. An error that it returns is pending in the view until
    /// the next pump iteration hands it out.
    pub fn invoke_handler(self, invoke_handler: I) -> (r: Self)
        ensures
            r == (WebViewBuilder { invoke_handler: Some(invoke_handler), ..self }),
    {
        let mut builder = self;
        builder.invoke_handler = Some(invoke_handler);
        builder
    }

    /// Sets the user data that the view starts with.
    pub fn user_data(self, user_data: T) -> (r: Self)
        ensures
            r == (WebViewBuilder { user_data: Some(user_data), ..self }),
    {
        let mut builder = self;
        builder.user_data = Some(user_data);
        builder
    }
}

impl<'a, T, I, C: Text> WebViewBuilder<'a, T, I, C> {
    /// The UTF-8 bytes of the URL that the content resolves to.
    pub open spec fn url_bytes(&self) -> Seq<u8>
        recommends
            self.content is Some,
    {
        encode_utf8(self.content->0.url())
    }

    /// Whether content, user data and invoke handler are all set.
    pub open spec fn is_complete(&self) -> bool {
        self.content is Some && self.user_data is Some && self.invoke_handler is Some
    }

    /// Whether a string bound for the native layer holds a NUL byte: the
    /// title, or the URL of the content that is set.
    pub open spec fn has_nul_text(&self) -> bool {
        ||| first_nul(self.title.spec_bytes()) is Some
        ||| (self.content is Some && first_nul(self.url_bytes()) is Some)
    }

    /// Why `build` refuses the configuration, if it does. The checks run in
    /// a fixed order and the first that fails gives the error: the title's
    /// bytes, the content's presence, the URL's bytes, the user data's
    /// presence, the invoke handler's presence.
    pub open spec fn rejection(&self) -> Option<ErrorView> {
        if first_nul(self.title.spec_bytes()) is Some {
            Some(ErrorView::NulByte(first_nul(self.title.spec_bytes())->0))
        } else if self.content is None {
            Some(ErrorView::UninitializedField("content"@))
        } else if first_nul(self.url_bytes()) is Some {
            Some(ErrorView::NulByte(first_nul(self.url_bytes())->0))
        } else if self.user_data is None {
            Some(ErrorView::UninitializedField("user_data"@))
        } else if self.invoke_handler is None {
            Some(ErrorView::UninitializedField("invoke_handler"@))
        } else {
            None
        }
    }

    /// Validates the configuration. A configuration whose strings hold no
    /// NUL byte is accepted exactly when content, user data and invoke
    /// handler are all set, and is otherwise refused with the name of the
    /// first of them that is missing.
    pub fn build(self) -> (r: Result<Launch<T, I>, Error>)
        ensures
            match self.rejection() {
                Some(e) => r is Err && r->Err_0@ == e,
                None => {
                    &&& r is Ok
                    &&& r->Ok_0.window.title@ == self.title.spec_bytes()
                    &&& r->Ok_0.window.url@ == self.url_bytes()
                    &&& r->Ok_0.window.width == self.width
                    &&& r->Ok_0.window.height == self.height
                    &&& r->Ok_0.window.resizable == self.resizable
                    &&& r->Ok_0.window.debug == self.debug
                    &&& r->Ok_0.window.frameless == self.frameless
                    &&& r->Ok_0.window.visible == self.visible
                    &&& r->Ok_0.window.min_width == self.min_width
                    &&& r->Ok_0.window.min_height == self.min_height
                    &&& Some(r->Ok_0.user_data) == self.user_data
                    &&& Some(r->Ok_0.invoke_handler) == self.invoke_handler
                },
            },
            !self.has_nul_text() ==> (r is Ok <==> self.is_complete()),
            !self.has_nul_text() && self.content is None ==> r is Err && r->Err_0@
                == ErrorView::UninitializedField("content"@),
            !self.has_nul_text() && self.content is Some && self.user_data is None ==> r is Err
                && r->Err_0@ == ErrorView::UninitializedField("user_data"@),
            !self.has_nul_text() && self.content is Some && self.user_data is Some
                && self.invoke_handler is None ==> r is Err && r->Err_0@
                == ErrorView::UninitializedField("invoke_handler"@),
    {
        let title = match NativeString::new(self.title) {
            Ok(title) => title,
            Err(e) => {
                return Err(e);
            },
        };
        let content = match self.content {
            Some(content) => content,
            None => {
                return Err(Error::UninitializedField("content"));
            },
        };
        let resolved = content.to_url();
        let url = match NativeString::new(resolved.as_str()) {
            Ok(url) => url,
            Err(e) => {
                return Err(e);
            },
        };
        let user_data = match self.user_data {
            Some(user_data) => user_data,
            None => {
                return Err(Error::UninitializedField("user_data"));
            },
        };
        let invoke_handler = match self.invoke_handler {
            Some(invoke_handler) => invoke_handler,
            None => {
                return Err(Error::UninitializedField("invoke_handler"));
            },
        };
        Ok(
            Launch {
                window: WindowSpec {
                    title,
                    url,
                    width: self.width,
                    height: self.height,
                    resizable: self.resizable,
                    debug: self.debug,
                    frameless: self.frameless,
                    visible: self.visible,
                    min_width: self.min_width,
                    min_height: self.min_height,
                },
                user_data,
                invoke_handler,
            },
        )
    }
}

/// A builder with the initial configuration.
pub fn builder<'a, T, I, C>() -> (r: WebViewBuilder<'a, T, I, C>)
    ensures
        r == WebViewBuilder::<'a, T, I, C>::initial(),
{
    WebViewBuilder::new()
}

} // verus!
