//! The site or app in which an impression appears, and who publishes it.

use crate::bid_request::{Content, ContentView};
use crate::bool::Bool;
use crate::error::{DecodeError, DecodeErrorView};
use crate::json::{Json, JsonView};
use crate::object::{
    encode_opt, lemma_opt_field_round_trip, lemma_other_key, lemma_other_key_raw, Members,
    ObjectWriter, opt_field, opt_view, raw_field, read_members, read_opt_field, read_raw_field,
    Record,
};
use crate::text::lemma_head;
use crate::wire::{Wire, wrong_type};
use vstd::prelude::*;

verus! {

/// The website in which an impression appears.
#[derive(Clone, Debug, PartialEq)]
pub struct Site {
    /// Site ID on the exchange.
    pub id: Option<String>,
    /// Site name (may be masked at publisher's request).
    pub name: Option<String>,
    /// Domain of the site, used for advertiser side blocking. For example, "foo.com".
    pub domain: Option<String>,
    /// Array of IAB content categories of the site. See enum ContentCategory.
    pub cat: Option<Vec<String>>,
    /// Array of IAB content categories that describe the current section of the site. See
    /// enum ContentCategory.
    pub sectioncat: Option<Vec<String>>,
    /// Array of IAB content categories that describe the current page or view of the site.
    /// See enum ContentCategory.
    pub pagecat: Option<Vec<String>>,
    /// URL of the page where the impression will be shown.
    pub page: Option<String>,
    /// Indicates if the site has a privacy policy.
    pub privacypolicy: Option<Bool>,
    /// Referrer URL that caused navigation to the current page.
    pub ref_: Option<String>,
    /// Search string that caused navigation to the current page.
    pub search: Option<String>,
    /// Details about the Publisher (Section 3.2.8) of the site.
    pub publisher: Option<Publisher>,
    /// Details about the Content (Section 3.2.9) within the site.
    pub content: Option<Content>,
    /// Comma separated list of keywords about this site.
    pub keywords: Option<String>,
    /// Indicates if the site has been programmed to optimize layout when viewed on mobile
    /// devices.
    pub mobile: Option<Bool>,
    /// Vendor extensions, carried as they are.
    pub ext: Option<Json>,
}

/// The mathematical value of a [`Site`].
pub struct SiteView {
    pub id: Option<Seq<char>>,
    pub name: Option<Seq<char>>,
    pub domain: Option<Seq<char>>,
    pub cat: Option<Seq<Seq<char>>>,
    pub sectioncat: Option<Seq<Seq<char>>>,
    pub pagecat: Option<Seq<Seq<char>>>,
    pub page: Option<Seq<char>>,
    pub privacypolicy: Option<Bool>,
    pub ref_: Option<Seq<char>>,
    pub search: Option<Seq<char>>,
    pub publisher: Option<PublisherView>,
    pub content: Option<ContentView>,
    pub keywords: Option<Seq<char>>,
    pub mobile: Option<Bool>,
    pub ext: Option<JsonView>,
}

impl DeepView for Site {
    type V = SiteView;

    open spec fn deep_view(&self) -> SiteView {
        SiteView {
            id: opt_view(self.id),
            name: opt_view(self.name),
            domain: opt_view(self.domain),
            cat: opt_view(self.cat),
            sectioncat: opt_view(self.sectioncat),
            pagecat: opt_view(self.pagecat),
            page: opt_view(self.page),
            privacypolicy: opt_view(self.privacypolicy),
            ref_: opt_view(self.ref_),
            search: opt_view(self.search),
            publisher: opt_view(self.publisher),
            content: opt_view(self.content),
            keywords: opt_view(self.keywords),
            mobile: opt_view(self.mobile),
            ext: opt_view(self.ext),
        }
    }
}

impl SiteView {
    /// The value in which every optional field is absent and every required
    /// field is empty or zero.
    pub open spec fn empty() -> SiteView {
        SiteView {
            id: None,
            name: None,
            domain: None,
            cat: None,
            sectioncat: None,
            pagecat: None,
            page: None,
            privacypolicy: None,
            ref_: None,
            search: None,
            publisher: None,
            content: None,
            keywords: None,
            mobile: None,
            ext: None,
        }
    }
}

impl Default for Site {
    fn default() -> (value: Site)
        ensures
            value.deep_view() == SiteView::empty(),
    {
        let value = Site {
            id: None,
            name: None,
            domain: None,
            cat: None,
            sectioncat: None,
            pagecat: None,
            page: None,
            privacypolicy: None,
            ref_: None,
            search: None,
            publisher: None,
            content: None,
            keywords: None,
            mobile: None,
            ext: None,
        };
        proof {
            reveal(opt_view);
        }
        value
    }
}

impl Wire for Site {
    open spec fn encode_spec(value: SiteView) -> JsonView {
        Members::empty()
            .with_opt("id"@, encode_opt::<String>(value.id))
            .with_opt("name"@, encode_opt::<String>(value.name))
            .with_opt("domain"@, encode_opt::<String>(value.domain))
            .with_opt("cat"@, encode_opt::<Vec<String>>(value.cat))
            .with_opt("sectioncat"@, encode_opt::<Vec<String>>(value.sectioncat))
            .with_opt("pagecat"@, encode_opt::<Vec<String>>(value.pagecat))
            .with_opt("page"@, encode_opt::<String>(value.page))
            .with_opt("privacypolicy"@, encode_opt::<Bool>(value.privacypolicy))
            .with_opt("ref"@, encode_opt::<String>(value.ref_))
            .with_opt("search"@, encode_opt::<String>(value.search))
            .with_opt("publisher"@, encode_opt::<Publisher>(value.publisher))
            .with_opt("content"@, encode_opt::<Content>(value.content))
            .with_opt("keywords"@, encode_opt::<String>(value.keywords))
            .with_opt("mobile"@, encode_opt::<Bool>(value.mobile))
            .with_opt("ext"@, value.ext)
            .json()
    }

    open spec fn decode_spec(doc: JsonView) -> Result<SiteView, DecodeErrorView> {
        match doc {
            JsonView::Object(members) => {
                let id = opt_field::<String>(members, "id"@);
                let name = opt_field::<String>(members, "name"@);
                let domain = opt_field::<String>(members, "domain"@);
                let cat = opt_field::<Vec<String>>(members, "cat"@);
                let sectioncat = opt_field::<Vec<String>>(members, "sectioncat"@);
                let pagecat = opt_field::<Vec<String>>(members, "pagecat"@);
                let page = opt_field::<String>(members, "page"@);
                let privacypolicy = opt_field::<Bool>(members, "privacypolicy"@);
                let ref_ = opt_field::<String>(members, "ref"@);
                let search = opt_field::<String>(members, "search"@);
                let publisher = opt_field::<Publisher>(members, "publisher"@);
                let content = opt_field::<Content>(members, "content"@);
                let keywords = opt_field::<String>(members, "keywords"@);
                let mobile = opt_field::<Bool>(members, "mobile"@);
                let ext = raw_field(members, "ext"@);
                if id is Err {
                    Err(id->Err_0)
                } else if name is Err {
                    Err(name->Err_0)
                } else if domain is Err {
                    Err(domain->Err_0)
                } else if cat is Err {
                    Err(cat->Err_0)
                } else if sectioncat is Err {
                    Err(sectioncat->Err_0)
                } else if pagecat is Err {
                    Err(pagecat->Err_0)
                } else if page is Err {
                    Err(page->Err_0)
                } else if privacypolicy is Err {
                    Err(privacypolicy->Err_0)
                } else if ref_ is Err {
                    Err(ref_->Err_0)
                } else if search is Err {
                    Err(search->Err_0)
                } else if publisher is Err {
                    Err(publisher->Err_0)
                } else if content is Err {
                    Err(content->Err_0)
                } else if keywords is Err {
                    Err(keywords->Err_0)
                } else if mobile is Err {
                    Err(mobile->Err_0)
                } else {
                    Ok(
                        SiteView {
                            id: id->Ok_0,
                            name: name->Ok_0,
                            domain: domain->Ok_0,
                            cat: cat->Ok_0,
                            sectioncat: sectioncat->Ok_0,
                            pagecat: pagecat->Ok_0,
                            page: page->Ok_0,
                            privacypolicy: privacypolicy->Ok_0,
                            ref_: ref_->Ok_0,
                            search: search->Ok_0,
                            publisher: publisher->Ok_0,
                            content: content->Ok_0,
                            keywords: keywords->Ok_0,
                            mobile: mobile->Ok_0,
                            ext,
                        },
                    )
                }
            },
            _ => wrong_type(),
        }
    }

    fn encode(&self) -> (doc: Json) {
        let mut object = ObjectWriter::new();
        object.opt_field("id", &self.id);
        object.opt_field("name", &self.name);
        object.opt_field("domain", &self.domain);
        object.opt_field("cat", &self.cat);
        object.opt_field("sectioncat", &self.sectioncat);
        object.opt_field("pagecat", &self.pagecat);
        object.opt_field("page", &self.page);
        object.opt_field("privacypolicy", &self.privacypolicy);
        object.opt_field("ref", &self.ref_);
        object.opt_field("search", &self.search);
        object.opt_field("publisher", &self.publisher);
        object.opt_field("content", &self.content);
        object.opt_field("keywords", &self.keywords);
        object.opt_field("mobile", &self.mobile);
        object.raw_field("ext", &self.ext);
        object.finish()
    }

    fn decode(doc: &Json) -> (result: Result<Site, DecodeError>) {
        let members = read_members(doc)?;
        let id = read_opt_field::<String>(members, "id")?;
        let name = read_opt_field::<String>(members, "name")?;
        let domain = read_opt_field::<String>(members, "domain")?;
        let cat = read_opt_field::<Vec<String>>(members, "cat")?;
        let sectioncat = read_opt_field::<Vec<String>>(members, "sectioncat")?;
        let pagecat = read_opt_field::<Vec<String>>(members, "pagecat")?;
        let page = read_opt_field::<String>(members, "page")?;
        let privacypolicy = read_opt_field::<Bool>(members, "privacypolicy")?;
        let ref_ = read_opt_field::<String>(members, "ref")?;
        let search = read_opt_field::<String>(members, "search")?;
        let publisher = read_opt_field::<Publisher>(members, "publisher")?;
        let content = read_opt_field::<Content>(members, "content")?;
        let keywords = read_opt_field::<String>(members, "keywords")?;
        let mobile = read_opt_field::<Bool>(members, "mobile")?;
        let ext = read_raw_field(members, "ext");
        Ok(
            Site {
                id,
                name,
                domain,
                cat,
                sectioncat,
                pagecat,
                page,
                privacypolicy,
                ref_,
                search,
                publisher,
                content,
                keywords,
                mobile,
                ext,
            },
        )
    }

    proof fn lemma_round_trip(value: SiteView) {
        Site::lemma_written_fields(value);
        let members = Site::encode_spec(value)->Object_0;
        lemma_opt_field_round_trip::<String>(members, "id"@, value.id);
        lemma_opt_field_round_trip::<String>(members, "name"@, value.name);
        lemma_opt_field_round_trip::<String>(members, "domain"@, value.domain);
        lemma_opt_field_round_trip::<Vec<String>>(members, "cat"@, value.cat);
        lemma_opt_field_round_trip::<Vec<String>>(members, "sectioncat"@, value.sectioncat);
        lemma_opt_field_round_trip::<Vec<String>>(members, "pagecat"@, value.pagecat);
        lemma_opt_field_round_trip::<String>(members, "page"@, value.page);
        lemma_opt_field_round_trip::<Bool>(members, "privacypolicy"@, value.privacypolicy);
        lemma_opt_field_round_trip::<String>(members, "ref"@, value.ref_);
        lemma_opt_field_round_trip::<String>(members, "search"@, value.search);
        lemma_opt_field_round_trip::<Publisher>(members, "publisher"@, value.publisher);
        lemma_opt_field_round_trip::<Content>(members, "content"@, value.content);
        lemma_opt_field_round_trip::<String>(members, "keywords"@, value.keywords);
        lemma_opt_field_round_trip::<Bool>(members, "mobile"@, value.mobile);
    }
}

impl Site {
    /// What stands under each key on the wire: the wire form of the field of
    /// that name, whatever it holds, and nothing at all where the field is
    /// absent.
    pub proof fn lemma_written_fields(value: SiteView)
        ensures
            Site::encode_spec(value) matches JsonView::Object(members) && {
                &&& raw_field(members, "id"@) == encode_opt::<String>(value.id)
                &&& raw_field(members, "name"@) == encode_opt::<String>(value.name)
                &&& raw_field(members, "domain"@) == encode_opt::<String>(value.domain)
                &&& raw_field(members, "cat"@) == encode_opt::<Vec<String>>(value.cat)
                &&& raw_field(members, "sectioncat"@) == encode_opt::<Vec<String>>(value.sectioncat)
                &&& raw_field(members, "pagecat"@) == encode_opt::<Vec<String>>(value.pagecat)
                &&& raw_field(members, "page"@) == encode_opt::<String>(value.page)
                &&& raw_field(members, "privacypolicy"@) == encode_opt::<Bool>(value.privacypolicy)
                &&& raw_field(members, "ref"@) == encode_opt::<String>(value.ref_)
                &&& raw_field(members, "search"@) == encode_opt::<String>(value.search)
                &&& raw_field(members, "publisher"@) == encode_opt::<Publisher>(value.publisher)
                &&& raw_field(members, "content"@) == encode_opt::<Content>(value.content)
                &&& raw_field(members, "keywords"@) == encode_opt::<String>(value.keywords)
                &&& raw_field(members, "mobile"@) == encode_opt::<Bool>(value.mobile)
                &&& raw_field(members, "ext"@) == value.ext
            },
    {
        Members::lemma_lookup();
        reveal_strlit("id");
        reveal_strlit("name");
        reveal_strlit("domain");
        reveal_strlit("cat");
        reveal_strlit("sectioncat");
        reveal_strlit("pagecat");
        reveal_strlit("page");
        reveal_strlit("privacypolicy");
        reveal_strlit("ref");
        reveal_strlit("search");
        reveal_strlit("publisher");
        reveal_strlit("content");
        reveal_strlit("keywords");
        reveal_strlit("mobile");
        reveal_strlit("ext");
        lemma_head("id"@);
        lemma_head("name"@);
        lemma_head("domain"@);
        lemma_head("cat"@);
        lemma_head("sectioncat"@);
        lemma_head("pagecat"@);
        lemma_head("page"@);
        lemma_head("privacypolicy"@);
        lemma_head("ref"@);
        lemma_head("search"@);
        lemma_head("publisher"@);
        lemma_head("content"@);
        lemma_head("keywords"@);
        lemma_head("mobile"@);
        lemma_head("ext"@);
    }

    /// An optional field that is absent leaves no key on the wire, and a field
    /// that is present has its key, also where it holds zero, false or nothing.
    pub proof fn lemma_written_keys(value: SiteView)
        ensures
            Site::encode_spec(value) matches JsonView::Object(members) && {
                &&& members.contains_key("id"@) <==> value.id is Some
                &&& members.contains_key("name"@) <==> value.name is Some
                &&& members.contains_key("domain"@) <==> value.domain is Some
                &&& members.contains_key("cat"@) <==> value.cat is Some
                &&& members.contains_key("sectioncat"@) <==> value.sectioncat is Some
                &&& members.contains_key("pagecat"@) <==> value.pagecat is Some
                &&& members.contains_key("page"@) <==> value.page is Some
                &&& members.contains_key("privacypolicy"@) <==> value.privacypolicy is Some
                &&& members.contains_key("ref"@) <==> value.ref_ is Some
                &&& members.contains_key("search"@) <==> value.search is Some
                &&& members.contains_key("publisher"@) <==> value.publisher is Some
                &&& members.contains_key("content"@) <==> value.content is Some
                &&& members.contains_key("keywords"@) <==> value.keywords is Some
                &&& members.contains_key("mobile"@) <==> value.mobile is Some
                &&& members.contains_key("ext"@) <==> value.ext is Some
            },
    {
        Site::lemma_written_fields(value);
    }
}

impl Record for Site {
    open spec fn claims(key: Seq<char>) -> bool {
        ||| key == "id"@
        ||| key == "name"@
        ||| key == "domain"@
        ||| key == "cat"@
        ||| key == "sectioncat"@
        ||| key == "pagecat"@
        ||| key == "page"@
        ||| key == "privacypolicy"@
        ||| key == "ref"@
        ||| key == "search"@
        ||| key == "publisher"@
        ||| key == "content"@
        ||| key == "keywords"@
        ||| key == "mobile"@
        ||| key == "ext"@
    }

    proof fn lemma_writes_claimed_keys(value: SiteView) {
        Members::lemma_lookup();
        let members = Site::encode_spec(value)->Object_0;
        assert forall|key: Seq<char>| #[trigger] members.contains_key(key) implies Site::claims(
            key,
        ) by {
            assert(raw_field(members, key) is Some);
        }
    }

    proof fn lemma_unclaimed_key_is_passed_over(
        members: Map<Seq<char>, JsonView>,
        key: Seq<char>,
        value: JsonView,
    ) {
        lemma_other_key::<String>(members, "id"@, key, value);
        lemma_other_key::<String>(members, "name"@, key, value);
        lemma_other_key::<String>(members, "domain"@, key, value);
        lemma_other_key::<Vec<String>>(members, "cat"@, key, value);
        lemma_other_key::<Vec<String>>(members, "sectioncat"@, key, value);
        lemma_other_key::<Vec<String>>(members, "pagecat"@, key, value);
        lemma_other_key::<String>(members, "page"@, key, value);
        lemma_other_key::<Bool>(members, "privacypolicy"@, key, value);
        lemma_other_key::<String>(members, "ref"@, key, value);
        lemma_other_key::<String>(members, "search"@, key, value);
        lemma_other_key::<Publisher>(members, "publisher"@, key, value);
        lemma_other_key::<Content>(members, "content"@, key, value);
        lemma_other_key::<String>(members, "keywords"@, key, value);
        lemma_other_key::<Bool>(members, "mobile"@, key, value);
        lemma_other_key_raw(members, "ext"@, key, value);
    }
}

/// The application, other than a browser, in which an impression appears.
#[derive(Clone, Debug, PartialEq)]
pub struct App {
    /// Application ID on the exchange.
    pub id: Option<String>,
    /// Application name (may be aliased at publisher's request). App names for SDK-less
    /// requests (mostly from connected TVs) can be provided by the publisher directly in
    /// the request.
    pub name: Option<String>,
    /// Domain of the application. For example, "mygame.foo.com".
    pub domain: Option<String>,
    /// Array of IAB content categories of the app. See enum ContentCategory.
    pub cat: Option<Vec<String>>,
    /// Array of IAB content categories that describe the current section of the app. See
    /// enum ContentCategory.
    pub sectioncat: Option<Vec<String>>,
    /// Array of IAB content categories that describe the current page or view of the app.
    /// See enum ContentCategory.
    pub pagecat: Option<Vec<String>>,
    /// Application version.
    pub ver: Option<String>,
    /// A platform-specific application identifier intended to be unique to the app and
    /// independent of the exchange. On Android, this should be a bundle or package name
    /// (e.g., com.foo.mygame).
    pub bundle: Option<String>,
    /// Indicates if the app has a privacy policy.
    pub privacypolicy: Option<Bool>,
    /// false = app is free, true = the app is a paid version.
    pub paid: Option<Bool>,
    /// Details about the Publisher (Section 3.2.8) of the app.
    pub publisher: Option<Publisher>,
    /// Details about the Content (Section 3.2.9) within the app.
    pub content: Option<Content>,
    /// Comma separated list of keywords about the app.
    pub keywords: Option<String>,
    /// App store URL for an installed app; for QAG 1.5 compliance.
    pub storeurl: Option<String>,
    /// Vendor extensions, carried as they are.
    pub ext: Option<Json>,
}

/// The mathematical value of an [`App`].
pub struct AppView {
    pub id: Option<Seq<char>>,
    pub name: Option<Seq<char>>,
    pub domain: Option<Seq<char>>,
    pub cat: Option<Seq<Seq<char>>>,
    pub sectioncat: Option<Seq<Seq<char>>>,
    pub pagecat: Option<Seq<Seq<char>>>,
    pub ver: Option<Seq<char>>,
    pub bundle: Option<Seq<char>>,
    pub privacypolicy: Option<Bool>,
    pub paid: Option<Bool>,
    pub publisher: Option<PublisherView>,
    pub content: Option<ContentView>,
    pub keywords: Option<Seq<char>>,
    pub storeurl: Option<Seq<char>>,
    pub ext: Option<JsonView>,
}

impl DeepView for App {
    type V = AppView;

    open spec fn deep_view(&self) -> AppView {
        AppView {
            id: opt_view(self.id),
            name: opt_view(self.name),
            domain: opt_view(self.domain),
            cat: opt_view(self.cat),
            sectioncat: opt_view(self.sectioncat),
            pagecat: opt_view(self.pagecat),
            ver: opt_view(self.ver),
            bundle: opt_view(self.bundle),
            privacypolicy: opt_view(self.privacypolicy),
            paid: opt_view(self.paid),
            publisher: opt_view(self.publisher),
            content: opt_view(self.content),
            keywords: opt_view(self.keywords),
            storeurl: opt_view(self.storeurl),
            ext: opt_view(self.ext),
        }
    }
}

impl AppView {
    /// The value in which every optional field is absent and every required
    /// field is empty or zero.
    pub open spec fn empty() -> AppView {
        AppView {
            id: None,
            name: None,
            domain: None,
            cat: None,
            sectioncat: None,
            pagecat: None,
            ver: None,
            bundle: None,
            privacypolicy: None,
            paid: None,
            publisher: None,
            content: None,
            keywords: None,
            storeurl: None,
            ext: None,
        }
    }
}

impl Default for App {
    fn default() -> (value: App)
        ensures
            value.deep_view() == AppView::empty(),
    {
        let value = App {
            id: None,
            name: None,
            domain: None,
            cat: None,
            sectioncat: None,
            pagecat: None,
            ver: None,
            bundle: None,
            privacypolicy: None,
            paid: None,
            publisher: None,
            content: None,
            keywords: None,
            storeurl: None,
            ext: None,
        };
        proof {
            reveal(opt_view);
        }
        value
    }
}

impl Wire for App {
    open spec fn encode_spec(value: AppView) -> JsonView {
        Members::empty()
            .with_opt("id"@, encode_opt::<String>(value.id))
            .with_opt("name"@, encode_opt::<String>(value.name))
            .with_opt("domain"@, encode_opt::<String>(value.domain))
            .with_opt("cat"@, encode_opt::<Vec<String>>(value.cat))
            .with_opt("sectioncat"@, encode_opt::<Vec<String>>(value.sectioncat))
            .with_opt("pagecat"@, encode_opt::<Vec<String>>(value.pagecat))
            .with_opt("ver"@, encode_opt::<String>(value.ver))
            .with_opt("bundle"@, encode_opt::<String>(value.bundle))
            .with_opt("privacypolicy"@, encode_opt::<Bool>(value.privacypolicy))
            .with_opt("paid"@, encode_opt::<Bool>(value.paid))
            .with_opt("publisher"@, encode_opt::<Publisher>(value.publisher))
            .with_opt("content"@, encode_opt::<Content>(value.content))
            .with_opt("keywords"@, encode_opt::<String>(value.keywords))
            .with_opt("storeurl"@, encode_opt::<String>(value.storeurl))
            .with_opt("ext"@, value.ext)
            .json()
    }

    open spec fn decode_spec(doc: JsonView) -> Result<AppView, DecodeErrorView> {
        match doc {
            JsonView::Object(members) => {
                let id = opt_field::<String>(members, "id"@);
                let name = opt_field::<String>(members, "name"@);
                let domain = opt_field::<String>(members, "domain"@);
                let cat = opt_field::<Vec<String>>(members, "cat"@);
                let sectioncat = opt_field::<Vec<String>>(members, "sectioncat"@);
                let pagecat = opt_field::<Vec<String>>(members, "pagecat"@);
                let ver = opt_field::<String>(members, "ver"@);
                let bundle = opt_field::<String>(members, "bundle"@);
                let privacypolicy = opt_field::<Bool>(members, "privacypolicy"@);
                let paid = opt_field::<Bool>(members, "paid"@);
                let publisher = opt_field::<Publisher>(members, "publisher"@);
                let content = opt_field::<Content>(members, "content"@);
                let keywords = opt_field::<String>(members, "keywords"@);
                let storeurl = opt_field::<String>(members, "storeurl"@);
                let ext = raw_field(members, "ext"@);
                if id is Err {
                    Err(id->Err_0)
                } else if name is Err {
                    Err(name->Err_0)
                } else if domain is Err {
                    Err(domain->Err_0)
                } else if cat is Err {
                    Err(cat->Err_0)
                } else if sectioncat is Err {
                    Err(sectioncat->Err_0)
                } else if pagecat is Err {
                    Err(pagecat->Err_0)
                } else if ver is Err {
                    Err(ver->Err_0)
                } else if bundle is Err {
                    Err(bundle->Err_0)
                } else if privacypolicy is Err {
                    Err(privacypolicy->Err_0)
                } else if paid is Err {
                    Err(paid->Err_0)
                } else if publisher is Err {
                    Err(publisher->Err_0)
                } else if content is Err {
                    Err(content->Err_0)
                } else if keywords is Err {
                    Err(keywords->Err_0)
                } else if storeurl is Err {
                    Err(storeurl->Err_0)
                } else {
                    Ok(
                        AppView {
                            id: id->Ok_0,
                            name: name->Ok_0,
                            domain: domain->Ok_0,
                            cat: cat->Ok_0,
                            sectioncat: sectioncat->Ok_0,
                            pagecat: pagecat->Ok_0,
                            ver: ver->Ok_0,
                            bundle: bundle->Ok_0,
                            privacypolicy: privacypolicy->Ok_0,
                            paid: paid->Ok_0,
                            publisher: publisher->Ok_0,
                            content: content->Ok_0,
                            keywords: keywords->Ok_0,
                            storeurl: storeurl->Ok_0,
                            ext,
                        },
                    )
                }
            },
            _ => wrong_type(),
        }
    }

    fn encode(&self) -> (doc: Json) {
        let mut object = ObjectWriter::new();
        object.opt_field("id", &self.id);
        object.opt_field("name", &self.name);
        object.opt_field("domain", &self.domain);
        object.opt_field("cat", &self.cat);
        object.opt_field("sectioncat", &self.sectioncat);
        object.opt_field("pagecat", &self.pagecat);
        object.opt_field("ver", &self.ver);
        object.opt_field("bundle", &self.bundle);
        object.opt_field("privacypolicy", &self.privacypolicy);
        object.opt_field("paid", &self.paid);
        object.opt_field("publisher", &self.publisher);
        object.opt_field("content", &self.content);
        object.opt_field("keywords", &self.keywords);
        object.opt_field("storeurl", &self.storeurl);
        object.raw_field("ext", &self.ext);
        object.finish()
    }

    fn decode(doc: &Json) -> (result: Result<App, DecodeError>) {
        let members = read_members(doc)?;
        let id = read_opt_field::<String>(members, "id")?;
        let name = read_opt_field::<String>(members, "name")?;
        let domain = read_opt_field::<String>(members, "domain")?;
        let cat = read_opt_field::<Vec<String>>(members, "cat")?;
        let sectioncat = read_opt_field::<Vec<String>>(members, "sectioncat")?;
        let pagecat = read_opt_field::<Vec<String>>(members, "pagecat")?;
        let ver = read_opt_field::<String>(members, "ver")?;
        let bundle = read_opt_field::<String>(members, "bundle")?;
        let privacypolicy = read_opt_field::<Bool>(members, "privacypolicy")?;
        let paid = read_opt_field::<Bool>(members, "paid")?;
        let publisher = read_opt_field::<Publisher>(members, "publisher")?;
        let content = read_opt_field::<Content>(members, "content")?;
        let keywords = read_opt_field::<String>(members, "keywords")?;
        let storeurl = read_opt_field::<String>(members, "storeurl")?;
        let ext = read_raw_field(members, "ext");
        Ok(
            App {
                id,
                name,
                domain,
                cat,
                sectioncat,
                pagecat,
                ver,
                bundle,
                privacypolicy,
                paid,
                publisher,
                content,
                keywords,
                storeurl,
                ext,
            },
        )
    }

    proof fn lemma_round_trip(value: AppView) {
        App::lemma_written_fields(value);
        let members = App::encode_spec(value)->Object_0;
        lemma_opt_field_round_trip::<String>(members, "id"@, value.id);
        lemma_opt_field_round_trip::<String>(members, "name"@, value.name);
        lemma_opt_field_round_trip::<String>(members, "domain"@, value.domain);
        lemma_opt_field_round_trip::<Vec<String>>(members, "cat"@, value.cat);
        lemma_opt_field_round_trip::<Vec<String>>(members, "sectioncat"@, value.sectioncat);
        lemma_opt_field_round_trip::<Vec<String>>(members, "pagecat"@, value.pagecat);
        lemma_opt_field_round_trip::<String>(members, "ver"@, value.ver);
        lemma_opt_field_round_trip::<String>(members, "bundle"@, value.bundle);
        lemma_opt_field_round_trip::<Bool>(members, "privacypolicy"@, value.privacypolicy);
        lemma_opt_field_round_trip::<Bool>(members, "paid"@, value.paid);
        lemma_opt_field_round_trip::<Publisher>(members, "publisher"@, value.publisher);
        lemma_opt_field_round_trip::<Content>(members, "content"@, value.content);
        lemma_opt_field_round_trip::<String>(members, "keywords"@, value.keywords);
        lemma_opt_field_round_trip::<String>(members, "storeurl"@, value.storeurl);
    }
}

impl App {
    /// What stands under each key on the wire: the wire form of the field of
    /// that name, whatever it holds, and nothing at all where the field is
    /// absent.
    pub proof fn lemma_written_fields(value: AppView)
        ensures
            App::encode_spec(value) matches JsonView::Object(members) && {
                &&& raw_field(members, "id"@) == encode_opt::<String>(value.id)
                &&& raw_field(members, "name"@) == encode_opt::<String>(value.name)
                &&& raw_field(members, "domain"@) == encode_opt::<String>(value.domain)
                &&& raw_field(members, "cat"@) == encode_opt::<Vec<String>>(value.cat)
                &&& raw_field(members, "sectioncat"@) == encode_opt::<Vec<String>>(value.sectioncat)
                &&& raw_field(members, "pagecat"@) == encode_opt::<Vec<String>>(value.pagecat)
                &&& raw_field(members, "ver"@) == encode_opt::<String>(value.ver)
                &&& raw_field(members, "bundle"@) == encode_opt::<String>(value.bundle)
                &&& raw_field(members, "privacypolicy"@) == encode_opt::<Bool>(value.privacypolicy)
                &&& raw_field(members, "paid"@) == encode_opt::<Bool>(value.paid)
                &&& raw_field(members, "publisher"@) == encode_opt::<Publisher>(value.publisher)
                &&& raw_field(members, "content"@) == encode_opt::<Content>(value.content)
                &&& raw_field(members, "keywords"@) == encode_opt::<String>(value.keywords)
                &&& raw_field(members, "storeurl"@) == encode_opt::<String>(value.storeurl)
                &&& raw_field(members, "ext"@) == value.ext
            },
    {
        Members::lemma_lookup();
        reveal_strlit("id");
        reveal_strlit("name");
        reveal_strlit("domain");
        reveal_strlit("cat");
        reveal_strlit("sectioncat");
        reveal_strlit("pagecat");
        reveal_strlit("ver");
        reveal_strlit("bundle");
        reveal_strlit("privacypolicy");
        reveal_strlit("paid");
        reveal_strlit("publisher");
        reveal_strlit("content");
        reveal_strlit("keywords");
        reveal_strlit("storeurl");
        reveal_strlit("ext");
        lemma_head("id"@);
        lemma_head("name"@);
        lemma_head("domain"@);
        lemma_head("cat"@);
        lemma_head("sectioncat"@);
        lemma_head("pagecat"@);
        lemma_head("ver"@);
        lemma_head("bundle"@);
        lemma_head("privacypolicy"@);
        lemma_head("paid"@);
        lemma_head("publisher"@);
        lemma_head("content"@);
        lemma_head("keywords"@);
        lemma_head("storeurl"@);
        lemma_head("ext"@);
    }

    /// An optional field that is absent leaves no key on the wire, and a field
    /// that is present has its key, also where it holds zero, false or nothing.
    pub proof fn lemma_written_keys(value: AppView)
        ensures
            App::encode_spec(value) matches JsonView::Object(members) && {
                &&& members.contains_key("id"@) <==> value.id is Some
                &&& members.contains_key("name"@) <==> value.name is Some
                &&& members.contains_key("domain"@) <==> value.domain is Some
                &&& members.contains_key("cat"@) <==> value.cat is Some
                &&& members.contains_key("sectioncat"@) <==> value.sectioncat is Some
                &&& members.contains_key("pagecat"@) <==> value.pagecat is Some
                &&& members.contains_key("ver"@) <==> value.ver is Some
                &&& members.contains_key("bundle"@) <==> value.bundle is Some
                &&& members.contains_key("privacypolicy"@) <==> value.privacypolicy is Some
                &&& members.contains_key("paid"@) <==> value.paid is Some
                &&& members.contains_key("publisher"@) <==> value.publisher is Some
                &&& members.contains_key("content"@) <==> value.content is Some
                &&& members.contains_key("keywords"@) <==> value.keywords is Some
                &&& members.contains_key("storeurl"@) <==> value.storeurl is Some
                &&& members.contains_key("ext"@) <==> value.ext is Some
            },
    {
        App::lemma_written_fields(value);
    }
}

impl Record for App {
    open spec fn claims(key: Seq<char>) -> bool {
        ||| key == "id"@
        ||| key == "name"@
        ||| key == "domain"@
        ||| key == "cat"@
        ||| key == "sectioncat"@
        ||| key == "pagecat"@
        ||| key == "ver"@
        ||| key == "bundle"@
        ||| key == "privacypolicy"@
        ||| key == "paid"@
        ||| key == "publisher"@
        ||| key == "content"@
        ||| key == "keywords"@
        ||| key == "storeurl"@
        ||| key == "ext"@
    }

    proof fn lemma_writes_claimed_keys(value: AppView) {
        Members::lemma_lookup();
        let members = App::encode_spec(value)->Object_0;
        assert forall|key: Seq<char>| #[trigger] members.contains_key(key) implies App::claims(
            key,
        ) by {
            assert(raw_field(members, key) is Some);
        }
    }

    proof fn lemma_unclaimed_key_is_passed_over(
        members: Map<Seq<char>, JsonView>,
        key: Seq<char>,
        value: JsonView,
    ) {
        lemma_other_key::<String>(members, "id"@, key, value);
        lemma_other_key::<String>(members, "name"@, key, value);
        lemma_other_key::<String>(members, "domain"@, key, value);
        lemma_other_key::<Vec<String>>(members, "cat"@, key, value);
        lemma_other_key::<Vec<String>>(members, "sectioncat"@, key, value);
        lemma_other_key::<Vec<String>>(members, "pagecat"@, key, value);
        lemma_other_key::<String>(members, "ver"@, key, value);
        lemma_other_key::<String>(members, "bundle"@, key, value);
        lemma_other_key::<Bool>(members, "privacypolicy"@, key, value);
        lemma_other_key::<Bool>(members, "paid"@, key, value);
        lemma_other_key::<Publisher>(members, "publisher"@, key, value);
        lemma_other_key::<Content>(members, "content"@, key, value);
        lemma_other_key::<String>(members, "keywords"@, key, value);
        lemma_other_key::<String>(members, "storeurl"@, key, value);
        lemma_other_key_raw(members, "ext"@, key, value);
    }
}

/// The publisher of the media in which an ad will be shown.
#[derive(Clone, Debug, PartialEq)]
pub struct Publisher {
    /// Exchange-specific publisher ID.
    pub id: Option<String>,
    /// Publisher name (may be aliased at publisher's request).
    pub name: Option<String>,
    /// Array of IAB content categories that describe the publisher. See enum
    /// ContentCategory.
    pub cat: Option<Vec<String>>,
    /// Highest level domain of the publisher (e.g., "publisher.com").
    pub domain: Option<String>,
    /// Vendor extensions, carried as they are.
    pub ext: Option<Json>,
}

/// The mathematical value of a [`Publisher`].
pub struct PublisherView {
    pub id: Option<Seq<char>>,
    pub name: Option<Seq<char>>,
    pub cat: Option<Seq<Seq<char>>>,
    pub domain: Option<Seq<char>>,
    pub ext: Option<JsonView>,
}

impl DeepView for Publisher {
    type V = PublisherView;

    open spec fn deep_view(&self) -> PublisherView {
        PublisherView {
            id: opt_view(self.id),
            name: opt_view(self.name),
            cat: opt_view(self.cat),
            domain: opt_view(self.domain),
            ext: opt_view(self.ext),
        }
    }
}

impl PublisherView {
    /// The value in which every optional field is absent and every required
    /// field is empty or zero.
    pub open spec fn empty() -> PublisherView {
        PublisherView {
            id: None,
            name: None,
            cat: None,
            domain: None,
            ext: None,
        }
    }
}

impl Default for Publisher {
    fn default() -> (value: Publisher)
        ensures
            value.deep_view() == PublisherView::empty(),
    {
        let value = Publisher {
            id: None,
            name: None,
            cat: None,
            domain: None,
            ext: None,
        };
        proof {
            reveal(opt_view);
        }
        value
    }
}

impl Wire for Publisher {
    open spec fn encode_spec(value: PublisherView) -> JsonView {
        Members::empty()
            .with_opt("id"@, encode_opt::<String>(value.id))
            .with_opt("name"@, encode_opt::<String>(value.name))
            .with_opt("cat"@, encode_opt::<Vec<String>>(value.cat))
            .with_opt("domain"@, encode_opt::<String>(value.domain))
            .with_opt("ext"@, value.ext)
            .json()
    }

    open spec fn decode_spec(doc: JsonView) -> Result<PublisherView, DecodeErrorView> {
        match doc {
            JsonView::Object(members) => {
                let id = opt_field::<String>(members, "id"@);
                let name = opt_field::<String>(members, "name"@);
                let cat = opt_field::<Vec<String>>(members, "cat"@);
                let domain = opt_field::<String>(members, "domain"@);
                let ext = raw_field(members, "ext"@);
                if id is Err {
                    Err(id->Err_0)
                } else if name is Err {
                    Err(name->Err_0)
                } else if cat is Err {
                    Err(cat->Err_0)
                } else if domain is Err {
                    Err(domain->Err_0)
                } else {
                    Ok(
                        PublisherView {
                            id: id->Ok_0,
                            name: name->Ok_0,
                            cat: cat->Ok_0,
                            domain: domain->Ok_0,
                            ext,
                        },
                    )
                }
            },
            _ => wrong_type(),
        }
    }

    fn encode(&self) -> (doc: Json) {
        let mut object = ObjectWriter::new();
        object.opt_field("id", &self.id);
        object.opt_field("name", &self.name);
        object.opt_field("cat", &self.cat);
        object.opt_field("domain", &self.domain);
        object.raw_field("ext", &self.ext);
        object.finish()
    }

    fn decode(doc: &Json) -> (result: Result<Publisher, DecodeError>) {
        let members = read_members(doc)?;
        let id = read_opt_field::<String>(members, "id")?;
        let name = read_opt_field::<String>(members, "name")?;
        let cat = read_opt_field::<Vec<String>>(members, "cat")?;
        let domain = read_opt_field::<String>(members, "domain")?;
        let ext = read_raw_field(members, "ext");
        Ok(
            Publisher {
                id,
                name,
                cat,
                domain,
                ext,
            },
        )
    }

    proof fn lemma_round_trip(value: PublisherView) {
        Publisher::lemma_written_fields(value);
        let members = Publisher::encode_spec(value)->Object_0;
        lemma_opt_field_round_trip::<String>(members, "id"@, value.id);
        lemma_opt_field_round_trip::<String>(members, "name"@, value.name);
        lemma_opt_field_round_trip::<Vec<String>>(members, "cat"@, value.cat);
        lemma_opt_field_round_trip::<String>(members, "domain"@, value.domain);
    }
}

impl Publisher {
    /// What stands under each key on the wire: the wire form of the field of
    /// that name, whatever it holds, and nothing at all where the field is
    /// absent.
    pub proof fn lemma_written_fields(value: PublisherView)
        ensures
            Publisher::encode_spec(value) matches JsonView::Object(members) && {
                &&& raw_field(members, "id"@) == encode_opt::<String>(value.id)
                &&& raw_field(members, "name"@) == encode_opt::<String>(value.name)
                &&& raw_field(members, "cat"@) == encode_opt::<Vec<String>>(value.cat)
                &&& raw_field(members, "domain"@) == encode_opt::<String>(value.domain)
                &&& raw_field(members, "ext"@) == value.ext
            },
    {
        Members::lemma_lookup();
        reveal_strlit("id");
        reveal_strlit("name");
        reveal_strlit("cat");
        reveal_strlit("domain");
        reveal_strlit("ext");
        lemma_head("id"@);
        lemma_head("name"@);
        lemma_head("cat"@);
        lemma_head("domain"@);
        lemma_head("ext"@);
    }

    /// An optional field that is absent leaves no key on the wire, and a field
    /// that is present has its key, also where it holds zero, false or nothing.
    pub proof fn lemma_written_keys(value: PublisherView)
        ensures
            Publisher::encode_spec(value) matches JsonView::Object(members) && {
                &&& members.contains_key("id"@) <==> value.id is Some
                &&& members.contains_key("name"@) <==> value.name is Some
                &&& members.contains_key("cat"@) <==> value.cat is Some
                &&& members.contains_key("domain"@) <==> value.domain is Some
                &&& members.contains_key("ext"@) <==> value.ext is Some
            },
    {
        Publisher::lemma_written_fields(value);
    }
}

impl Record for Publisher {
    open spec fn claims(key: Seq<char>) -> bool {
        ||| key == "id"@
        ||| key == "name"@
        ||| key == "cat"@
        ||| key == "domain"@
        ||| key == "ext"@
    }

    proof fn lemma_writes_claimed_keys(value: PublisherView) {
        Members::lemma_lookup();
        let members = Publisher::encode_spec(value)->Object_0;
        assert forall|key: Seq<char>| #[trigger] members.contains_key(key) implies Publisher::claims(
            key,
        ) by {
            assert(raw_field(members, key) is Some);
        }
    }

    proof fn lemma_unclaimed_key_is_passed_over(
        members: Map<Seq<char>, JsonView>,
        key: Seq<char>,
        value: JsonView,
    ) {
        lemma_other_key::<String>(members, "id"@, key, value);
        lemma_other_key::<String>(members, "name"@, key, value);
        lemma_other_key::<Vec<String>>(members, "cat"@, key, value);
        lemma_other_key::<String>(members, "domain"@, key, value);
        lemma_other_key_raw(members, "ext"@, key, value);
    }
}

} // verus!
