//! The page as the theme controller sees it: a document, if there is one,
//! with a root element that carries the `data-theme` attribute and a cookie
//! jar that holds the cookie string.
//!
//! A [`Host`] is a plain value. Code that runs in a browser fills one from
//! the page, lets the controller work on it, and carries out on the page
//! what the controller did to the value: the root element's attribute, and
//! the entries that [`CookieJar::written`] lists.

use crate::cookie::{first_segment, segment_end};
use crate::text::chars_of;
use vstd::prelude::*;
use vstd::string::StrSliceExecFns;
use vstd::string::StringExecFns;

verus! {

/// The attribute of the root element that carries the theme.
pub const THEME_ATTRIBUTE: &'static str = "data-theme";

/// What a cookie jar holds, as a value.
pub struct CookieJarView {
    /// The cookie string: what reading the jar yields.
    pub cookies: Seq<char>,
    /// The entries written since the jar was opened, oldest first.
    pub written: Seq<Seq<char>>,
}

impl CookieJarView {
    /// The jar after `entry` was written to it. The jar keeps the pair
    /// of the entry, which is its first segment, and reads newest first: the
    /// pair stands before what the cookie string held.
    pub open spec fn write(self, entry: Seq<char>) -> CookieJarView {
        CookieJarView {
            cookies: if self.cookies.len() == 0 {
                first_segment(entry)
            } else {
                first_segment(entry) + "; "@ + self.cookies
            },
            written: self.written.push(entry),
        }
    }

    /// The jar as the next page load finds it: the cookie string stays,
    /// and nothing has been written yet.
    pub open spec fn reopened(self) -> CookieJarView {
        CookieJarView { cookies: self.cookies, written: Seq::empty() }
    }
}

/// The cookie facility of a page: a string of `;`-separated pairs that
/// outlives the page, and the entries written to it during this page load.
pub struct CookieJar {
    cookies: String,
    written: Vec<String>,
}

impl View for CookieJar {
    type V = CookieJarView;

    closed spec fn view(&self) -> CookieJarView {
        CookieJarView {
            cookies: self.cookies@,
            written: self.written@.map_values(|entry: String| entry@),
        }
    }
}

impl CookieJar {
    /// A jar whose cookie string is `cookies`.
    pub fn new(cookies: &str) -> (jar: CookieJar)
        ensures
            jar@ == (CookieJarView { cookies: cookies@, written: Seq::empty() }),
    {
        let jar = CookieJar { cookies: String::from_str(cookies), written: Vec::new() };
        assert(jar@.written =~= Seq::empty());
        jar
    }

    /// The cookie string.
    pub fn read_all(&self) -> (cookies: &str)
        ensures
            cookies@ == self@.cookies,
    {
        self.cookies.as_str()
    }

    /// The entries written since the jar was opened, oldest first.
    pub fn written(&self) -> (entries: &Vec<String>)
        ensures
            entries@.len() == self@.written.len(),
            forall|i: int| 0 <= i < entries@.len() ==> entries@[i]@ == self@.written[i],
    {
        &self.written
    }

    /// Writes one entry: a pair, and after the first `;` its attributes.
    pub fn write(&mut self, entry: &str)
        ensures
            final(self)@ == old(self)@.write(entry@),
    {
        let chars = chars_of(entry);
        let n: usize = segment_end(&chars, 0);
        assert(entry@.skip(0) =~= entry@);
        let mut cookies = String::from_str(entry.substring_char(0, n));
        if !self.cookies.as_str().is_empty() {
            cookies.append("; ");
            cookies.append(self.cookies.as_str());
        }
        self.cookies = cookies;
        self.written.push(String::from_str(entry));
        assert(self@.written =~= old(self)@.written.push(entry@));
    }

    /// The jar as the next page load finds it.
    pub fn reopen(&self) -> (jar: CookieJar)
        ensures
            jar@ == self@.reopened(),
    {
        CookieJar::new(self.cookies.as_str())
    }
}

/// The root element of a document, as a value.
pub struct RootElementView {
    /// Its `data-theme` attribute, where it has one.
    pub theme: Option<Seq<char>>,
}

/// A document, as a value.
pub struct DocumentView {
    /// Its root element, where it has one.
    pub root: Option<RootElementView>,
    /// Its cookie jar, where the page may use cookies.
    pub cookies: Option<CookieJarView>,
}

/// A page host, as a value.
pub struct HostView {
    /// Its document, where one is available.
    pub document: Option<DocumentView>,
}

impl HostView {
    /// The `data-theme` attribute of the document's root element: `None`
    /// where the document, the element or the attribute is missing.
    pub open spec fn root_theme(self) -> Option<Seq<char>> {
        match self.document {
            Some(document) => match document.root {
                Some(root) => root.theme,
                None => None,
            },
            None => None,
        }
    }

    /// Whether a root element is there to carry the attribute.
    pub open spec fn has_root(self) -> bool {
        self.document matches Some(document) && document.root is Some
    }

    /// The cookie jar, where a document with one is available.
    pub open spec fn cookie_jar(self) -> Option<CookieJarView> {
        match self.document {
            Some(document) => document.cookies,
            None => None,
        }
    }

    /// The cookie string, where a document with a cookie jar is available.
    pub open spec fn cookies(self) -> Option<Seq<char>> {
        match self.cookie_jar() {
            Some(jar) => Some(jar.cookies),
            None => None,
        }
    }

    /// The host after `theme` was set as the root element's `data-theme`:
    /// unchanged where there is no root element.
    pub open spec fn with_root_theme(self, theme: Seq<char>) -> HostView {
        match self.document {
            Some(document) => match document.root {
                Some(root) => HostView {
                    document: Some(
                        DocumentView {
                            root: Some(RootElementView { theme: Some(theme) }),
                            cookies: document.cookies,
                        },
                    ),
                },
                None => self,
            },
            None => self,
        }
    }

    /// The host after `entry` was written to its cookie jar: unchanged
    /// where there is no jar.
    pub open spec fn with_cookie(self, entry: Seq<char>) -> HostView {
        match self.document {
            Some(document) => match document.cookies {
                Some(jar) => HostView {
                    document: Some(
                        DocumentView { root: document.root, cookies: Some(jar.write(entry)) },
                    ),
                },
                None => self,
            },
            None => self,
        }
    }

    /// The host as the next page load finds it: the cookie string stays,
    /// the root element has no `data-theme` yet.
    pub open spec fn reloaded(self) -> HostView {
        match self.document {
            Some(document) => HostView {
                document: Some(
                    DocumentView {
                        root: match document.root {
                            Some(root) => Some(RootElementView { theme: None }),
                            None => None,
                        },
                        cookies: match document.cookies {
                            Some(jar) => Some(jar.reopened()),
                            None => None,
                        },
                    },
                ),
            },
            None => self,
        }
    }
}

/// The root element of a document.
pub struct RootElement {
    /// Its `data-theme` attribute, where it has one.
    pub theme: Option<String>,
}

impl View for RootElement {
    type V = RootElementView;

    open spec fn view(&self) -> RootElementView {
        RootElementView {
            theme: match self.theme {
                Some(theme) => Some(theme@),
                None => None,
            },
        }
    }
}

/// The document of a page.
pub struct Document {
    /// Its root element, where it has one.
    pub root: Option<RootElement>,
    /// Its cookie jar, where the page may use cookies.
    pub cookies: Option<CookieJar>,
}

impl View for Document {
    type V = DocumentView;

    open spec fn view(&self) -> DocumentView {
        DocumentView {
            root: match self.root {
                Some(root) => Some(root@),
                None => None,
            },
            cookies: match self.cookies {
                Some(jar) => Some(jar@),
                None => None,
            },
        }
    }
}

/// The page that the theme controller runs in: what it can read and change
/// of it. A host without a document stands for an environment that has no
/// page at all.
pub struct Host {
    /// Its document, where one is available.
    pub document: Option<Document>,
}

impl View for Host {
    type V = HostView;

    open spec fn view(&self) -> HostView {
        HostView {
            document: match self.document {
                Some(document) => Some(document@),
                None => None,
            },
        }
    }
}

impl Host {
    /// An environment without a page.
    pub fn detached() -> (host: Host)
        ensures
            host@ == (HostView { document: None }),
    {
        Host { document: None }
    }

    /// A freshly loaded page whose cookie string is `cookies`: a root
    /// element without `data-theme`, and nothing written yet.
    pub fn page(cookies: &str) -> (host: Host)
        ensures
            host@ == (HostView {
                document: Some(
                    DocumentView {
                        root: Some(RootElementView { theme: None }),
                        cookies: Some(
                            CookieJarView { cookies: cookies@, written: Seq::empty() },
                        ),
                    },
                ),
            }),
    {
        Host {
            document: Some(
                Document {
                    root: Some(RootElement { theme: None }),
                    cookies: Some(CookieJar::new(cookies)),
                },
            ),
        }
    }

    /// Reads the root element's `data-theme`.
    pub fn root_theme(&self) -> (theme: Option<&str>)
        ensures
            match theme {
                Some(value) => self@.root_theme() == Some(value@),
                None => self@.root_theme() is None,
            },
    {
        match &self.document {
            Some(document) => match &document.root {
                Some(root) => match &root.theme {
                    Some(theme) => Some(theme.as_str()),
                    None => None,
                },
                None => None,
            },
            None => None,
        }
    }

    /// Sets the root element's `data-theme`; does nothing where there is no
    /// root element.
    pub fn set_root_theme(&mut self, theme: &str)
        ensures
            final(self)@ == old(self)@.with_root_theme(theme@),
    {
        match &mut self.document {
            Some(document) => match &mut document.root {
                Some(root) => {
                    root.theme = Some(String::from_str(theme));
                },
                None => {},
            },
            None => {},
        }
    }

    /// Reads the cookie string.
    pub fn cookie(&self) -> (cookies: Option<&str>)
        ensures
            match cookies {
                Some(value) => self@.cookies() == Some(value@),
                None => self@.cookies() is None,
            },
    {
        match &self.document {
            Some(document) => match &document.cookies {
                Some(jar) => Some(jar.read_all()),
                None => None,
            },
            None => None,
        }
    }

    /// Writes one entry to the cookie jar; does nothing where there is
    /// none.
    pub fn set_cookie(&mut self, entry: &str)
        ensures
            final(self)@ == old(self)@.with_cookie(entry@),
    {
        match &mut self.document {
            Some(document) => match &mut document.cookies {
                Some(jar) => {
                    jar.write(entry);
                },
                None => {},
            },
            None => {},
        }
    }

    /// The host as the next page load finds it.
    pub fn reload(&self) -> (next: Host)
        ensures
            next@ == self@.reloaded(),
    {
        match &self.document {
            Some(document) => Host {
                document: Some(
                    Document {
                        root: match &document.root {
                            Some(_) => Some(RootElement { theme: None }),
                            None => None,
                        },
                        cookies: match &document.cookies {
                            Some(jar) => Some(jar.reopen()),
                            None => None,
                        },
                    },
                ),
            },
            None => Host { document: None },
        }
    }
}

} // verus!
