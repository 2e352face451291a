//! The content around an impression and who produced it.

use crate::bid_request::{Data, DataView};
use crate::bool::Bool;
use crate::error::{DecodeError, DecodeErrorView};
use crate::json::{Json, JsonView};
use crate::object::{
    encode_opt, lemma_opt_field_round_trip, lemma_other_key, lemma_other_key_raw, Members,
    ObjectWriter, opt_field, opt_view, raw_field, read_members, read_opt_field, read_raw_field,
    Record,
};
use crate::text::lemma_head;
use crate::vocabulary::context::{ContentContext, ProductionQuality, QagMediaRating};
use crate::wire::{Wire, wrong_type};
use vstd::prelude::*;

verus! {

/// The content in which an impression appears, which may be syndicated.
#[derive(Clone, Debug, PartialEq)]
pub struct Content {
    /// ID uniquely identifying the content.
    pub id: Option<String>,
    /// Content episode number (typically applies to video content).
    pub episode: Option<i32>,
    /// Content title. Video Examples: "Search Committee" (television), "A New Hope"
    /// (movie), or "Endgame" (made for web).
    pub title: Option<String>,
    /// Content series. Video Examples: "The Office" (television), "Star Wars" (movie), or
    /// "Arby 'N' The Chief" (made for web).
    pub series: Option<String>,
    /// Content season; typically for video content (e.g., "Season 3").
    pub season: Option<String>,
    /// Artist credited with the content.
    pub artist: Option<String>,
    /// Genre that best describes the content (e.g., rock, pop, etc).
    pub genre: Option<String>,
    /// Album to which the content belongs; typically for audio.
    pub album: Option<String>,
    /// International Standard Recording Code conforming to ISO-3901.
    pub isrc: Option<String>,
    /// Details about the content Producer (Section 3.2.10).
    pub producer: Option<Producer>,
    /// URL of the content, for buy-side contextualization or review.
    pub url: Option<String>,
    /// Array of IAB content categories that describe the content. See enum ContentCategory.
    pub cat: Option<Vec<String>>,
    /// Production quality.
    pub prodq: Option<ProductionQuality>,
    /// Type of content (game, video, text, etc.).
    pub context: Option<ContentContext>,
    /// Content rating (e.g., MPAA).
    pub contentrating: Option<String>,
    /// User rating of the content (e.g., number of stars, likes, etc.).
    pub userrating: Option<String>,
    /// Media rating per QAG guidelines.
    pub qagmediarating: Option<QagMediaRating>,
    /// Comma separated list of keywords describing the content.
    pub keywords: Option<String>,
    /// false = not live, true = content is live (e.g., stream, live blog).
    pub livestream: Option<Bool>,
    /// false = indirect, true = direct.
    pub sourcerelationship: Option<Bool>,
    /// Length of content in seconds; appropriate for video or audio.
    pub len: Option<i32>,
    /// Content language using ISO-639-1-alpha-2.
    pub language: Option<String>,
    /// Indicator of whether or not the content is embeddable (e.g., an embeddable video
    /// player).
    pub embeddable: Option<Bool>,
    /// Additional content data. Each object represents a different data source.
    pub data: Option<Vec<Data>>,
    /// Deprecated in OpenRTB 2.4+. Prefer the field `prodq`.
    pub videoquality: Option<ProductionQuality>,
    /// Vendor extensions, carried as they are.
    pub ext: Option<Json>,
}

/// The mathematical value of a [`Content`].
pub struct ContentView {
    pub id: Option<Seq<char>>,
    pub episode: Option<i32>,
    pub title: Option<Seq<char>>,
    pub series: Option<Seq<char>>,
    pub season: Option<Seq<char>>,
    pub artist: Option<Seq<char>>,
    pub genre: Option<Seq<char>>,
    pub album: Option<Seq<char>>,
    pub isrc: Option<Seq<char>>,
    pub producer: Option<ProducerView>,
    pub url: Option<Seq<char>>,
    pub cat: Option<Seq<Seq<char>>>,
    pub prodq: Option<ProductionQuality>,
    pub context: Option<ContentContext>,
    pub contentrating: Option<Seq<char>>,
    pub userrating: Option<Seq<char>>,
    pub qagmediarating: Option<QagMediaRating>,
    pub keywords: Option<Seq<char>>,
    pub livestream: Option<Bool>,
    pub sourcerelationship: Option<Bool>,
    pub len: Option<i32>,
    pub language: Option<Seq<char>>,
    pub embeddable: Option<Bool>,
    pub data: Option<Seq<DataView>>,
    pub videoquality: Option<ProductionQuality>,
    pub ext: Option<JsonView>,
}

impl DeepView for Content {
    type V = ContentView;

    open spec fn deep_view(&self) -> ContentView {
        ContentView {
            id: opt_view(self.id),
            episode: opt_view(self.episode),
            title: opt_view(self.title),
            series: opt_view(self.series),
            season: opt_view(self.season),
            artist: opt_view(self.artist),
            genre: opt_view(self.genre),
            album: opt_view(self.album),
            isrc: opt_view(self.isrc),
            producer: opt_view(self.producer),
            url: opt_view(self.url),
            cat: opt_view(self.cat),
            prodq: opt_view(self.prodq),
            context: opt_view(self.context),
            contentrating: opt_view(self.contentrating),
            userrating: opt_view(self.userrating),
            qagmediarating: opt_view(self.qagmediarating),
            keywords: opt_view(self.keywords),
            livestream: opt_view(self.livestream),
            sourcerelationship: opt_view(self.sourcerelationship),
            len: opt_view(self.len),
            language: opt_view(self.language),
            embeddable: opt_view(self.embeddable),
            data: opt_view(self.data),
            videoquality: opt_view(self.videoquality),
            ext: opt_view(self.ext),
        }
    }
}

impl ContentView {
    /// The value in which every optional field is absent and every required
    /// field is empty or zero.
    pub open spec fn empty() -> ContentView {
        ContentView {
            id: None,
            episode: None,
            title: None,
            series: None,
            season: None,
            artist: None,
            genre: None,
            album: None,
            isrc: None,
            producer: None,
            url: None,
            cat: None,
            prodq: None,
            context: None,
            contentrating: None,
            userrating: None,
            qagmediarating: None,
            keywords: None,
            livestream: None,
            sourcerelationship: None,
            len: None,
            language: None,
            embeddable: None,
            data: None,
            videoquality: None,
            ext: None,
        }
    }
}

impl Default for Content {
    fn default() -> (value: Content)
        ensures
            value.deep_view() == ContentView::empty(),
    {
        let value = Content {
            id: None,
            episode: None,
            title: None,
            series: None,
            season: None,
            artist: None,
            genre: None,
            album: None,
            isrc: None,
            producer: None,
            url: None,
            cat: None,
            prodq: None,
            context: None,
            contentrating: None,
            userrating: None,
            qagmediarating: None,
            keywords: None,
            livestream: None,
            sourcerelationship: None,
            len: None,
            language: None,
            embeddable: None,
            data: None,
            videoquality: None,
            ext: None,
        };
        proof {
            reveal(opt_view);
        }
        value
    }
}

impl Wire for Content {
    open spec fn encode_spec(value: ContentView) -> JsonView {
        Members::empty()
            .with_opt("id"@, encode_opt::<String>(value.id))
            .with_opt("episode"@, encode_opt::<i32>(value.episode))
            .with_opt("title"@, encode_opt::<String>(value.title))
            .with_opt("series"@, encode_opt::<String>(value.series))
            .with_opt("season"@, encode_opt::<String>(value.season))
            .with_opt("artist"@, encode_opt::<String>(value.artist))
            .with_opt("genre"@, encode_opt::<String>(value.genre))
            .with_opt("album"@, encode_opt::<String>(value.album))
            .with_opt("isrc"@, encode_opt::<String>(value.isrc))
            .with_opt("producer"@, encode_opt::<Producer>(value.producer))
            .with_opt("url"@, encode_opt::<String>(value.url))
            .with_opt("cat"@, encode_opt::<Vec<String>>(value.cat))
            .with_opt("prodq"@, encode_opt::<ProductionQuality>(value.prodq))
            .with_opt("context"@, encode_opt::<ContentContext>(value.context))
            .with_opt("contentrating"@, encode_opt::<String>(value.contentrating))
            .with_opt("userrating"@, encode_opt::<String>(value.userrating))
            .with_opt("qagmediarating"@, encode_opt::<QagMediaRating>(value.qagmediarating))
            .with_opt("keywords"@, encode_opt::<String>(value.keywords))
            .with_opt("livestream"@, encode_opt::<Bool>(value.livestream))
            .with_opt("sourcerelationship"@, encode_opt::<Bool>(value.sourcerelationship))
            .with_opt("len"@, encode_opt::<i32>(value.len))
            .with_opt("language"@, encode_opt::<String>(value.language))
            .with_opt("embeddable"@, encode_opt::<Bool>(value.embeddable))
            .with_opt("data"@, encode_opt::<Vec<Data>>(value.data))
            .with_opt("videoquality"@, encode_opt::<ProductionQuality>(value.videoquality))
            .with_opt("ext"@, value.ext)
            .json()
    }

    open spec fn decode_spec(doc: JsonView) -> Result<ContentView, DecodeErrorView> {
        match doc {
            JsonView::Object(members) => {
                let id = opt_field::<String>(members, "id"@);
                let episode = opt_field::<i32>(members, "episode"@);
                let title = opt_field::<String>(members, "title"@);
                let series = opt_field::<String>(members, "series"@);
                let season = opt_field::<String>(members, "season"@);
                let artist = opt_field::<String>(members, "artist"@);
                let genre = opt_field::<String>(members, "genre"@);
                let album = opt_field::<String>(members, "album"@);
                let isrc = opt_field::<String>(members, "isrc"@);
                let producer = opt_field::<Producer>(members, "producer"@);
                let url = opt_field::<String>(members, "url"@);
                let cat = opt_field::<Vec<String>>(members, "cat"@);
                let prodq = opt_field::<ProductionQuality>(members, "prodq"@);
                let context = opt_field::<ContentContext>(members, "context"@);
                let contentrating = opt_field::<String>(members, "contentrating"@);
                let userrating = opt_field::<String>(members, "userrating"@);
                let qagmediarating = opt_field::<QagMediaRating>(members, "qagmediarating"@);
                let keywords = opt_field::<String>(members, "keywords"@);
                let livestream = opt_field::<Bool>(members, "livestream"@);
                let sourcerelationship = opt_field::<Bool>(members, "sourcerelationship"@);
                let len = opt_field::<i32>(members, "len"@);
                let language = opt_field::<String>(members, "language"@);
                let embeddable = opt_field::<Bool>(members, "embeddable"@);
                let data = opt_field::<Vec<Data>>(members, "data"@);
                let videoquality = opt_field::<ProductionQuality>(members, "videoquality"@);
                let ext = raw_field(members, "ext"@);
                if id is Err {
                    Err(id->Err_0)
                } else if episode is Err {
                    Err(episode->Err_0)
                } else if title is Err {
                    Err(title->Err_0)
                } else if series is Err {
                    Err(series->Err_0)
                } else if season is Err {
                    Err(season->Err_0)
                } else if artist is Err {
                    Err(artist->Err_0)
                } else if genre is Err {
                    Err(genre->Err_0)
                } else if album is Err {
                    Err(album->Err_0)
                } else if isrc is Err {
                    Err(isrc->Err_0)
                } else if producer is Err {
                    Err(producer->Err_0)
                } else if url is Err {
                    Err(url->Err_0)
                } else if cat is Err {
                    Err(cat->Err_0)
                } else if prodq is Err {
                    Err(prodq->Err_0)
                } else if context is Err {
                    Err(context->Err_0)
                } else if contentrating is Err {
                    Err(contentrating->Err_0)
                } else if userrating is Err {
                    Err(userrating->Err_0)
                } else if qagmediarating is Err {
                    Err(qagmediarating->Err_0)
                } else if keywords is Err {
                    Err(keywords->Err_0)
                } else if livestream is Err {
                    Err(livestream->Err_0)
                } else if sourcerelationship is Err {
                    Err(sourcerelationship->Err_0)
                } else if len is Err {
                    Err(len->Err_0)
                } else if language is Err {
                    Err(language->Err_0)
                } else if embeddable is Err {
                    Err(embeddable->Err_0)
                } else if data is Err {
                    Err(data->Err_0)
                } else if videoquality is Err {
                    Err(videoquality->Err_0)
                } else {
                    Ok(
                        ContentView {
                            id: id->Ok_0,
                            episode: episode->Ok_0,
                            title: title->Ok_0,
                            series: series->Ok_0,
                            season: season->Ok_0,
                            artist: artist->Ok_0,
                            genre: genre->Ok_0,
                            album: album->Ok_0,
                            isrc: isrc->Ok_0,
                            producer: producer->Ok_0,
                            url: url->Ok_0,
                            cat: cat->Ok_0,
                            prodq: prodq->Ok_0,
                            context: context->Ok_0,
                            contentrating: contentrating->Ok_0,
                            userrating: userrating->Ok_0,
                            qagmediarating: qagmediarating->Ok_0,
                            keywords: keywords->Ok_0,
                            livestream: livestream->Ok_0,
                            sourcerelationship: sourcerelationship->Ok_0,
                            len: len->Ok_0,
                            language: language->Ok_0,
                            embeddable: embeddable->Ok_0,
                            data: data->Ok_0,
                            videoquality: videoquality->Ok_0,
                            ext,
                        },
                    )
                }
            },
            _ => wrong_type(),
        }
    }

    fn encode(&self) -> (doc: Json) {
        let mut object = ObjectWriter::new();
        object.opt_field("id", &self.id);
        object.opt_field("episode", &self.episode);
        object.opt_field("title", &self.title);
        object.opt_field("series", &self.series);
        object.opt_field("season", &self.season);
        object.opt_field("artist", &self.artist);
        object.opt_field("genre", &self.genre);
        object.opt_field("album", &self.album);
        object.opt_field("isrc", &self.isrc);
        object.opt_field("producer", &self.producer);
        object.opt_field("url", &self.url);
        object.opt_field("cat", &self.cat);
        object.opt_field("prodq", &self.prodq);
        object.opt_field("context", &self.context);
        object.opt_field("contentrating", &self.contentrating);
        object.opt_field("userrating", &self.userrating);
        object.opt_field("qagmediarating", &self.qagmediarating);
        object.opt_field("keywords", &self.keywords);
        object.opt_field("livestream", &self.livestream);
        object.opt_field("sourcerelationship", &self.sourcerelationship);
        object.opt_field("len", &self.len);
        object.opt_field("language", &self.language);
        object.opt_field("embeddable", &self.embeddable);
        object.opt_field("data", &self.data);
        object.opt_field("videoquality", &self.videoquality);
        object.raw_field("ext", &self.ext);
        object.finish()
    }

    fn decode(doc: &Json) -> (result: Result<Content, DecodeError>) {
        let members = read_members(doc)?;
        let id = read_opt_field::<String>(members, "id")?;
        let episode = read_opt_field::<i32>(members, "episode")?;
        let title = read_opt_field::<String>(members, "title")?;
        let series = read_opt_field::<String>(members, "series")?;
        let season = read_opt_field::<String>(members, "season")?;
        let artist = read_opt_field::<String>(members, "artist")?;
        let genre = read_opt_field::<String>(members, "genre")?;
        let album = read_opt_field::<String>(members, "album")?;
        let isrc = read_opt_field::<String>(members, "isrc")?;
        let producer = read_opt_field::<Producer>(members, "producer")?;
        let url = read_opt_field::<String>(members, "url")?;
        let cat = read_opt_field::<Vec<String>>(members, "cat")?;
        let prodq = read_opt_field::<ProductionQuality>(members, "prodq")?;
        let context = read_opt_field::<ContentContext>(members, "context")?;
        let contentrating = read_opt_field::<String>(members, "contentrating")?;
        let userrating = read_opt_field::<String>(members, "userrating")?;
        let qagmediarating = read_opt_field::<QagMediaRating>(members, "qagmediarating")?;
        let keywords = read_opt_field::<String>(members, "keywords")?;
        let livestream = read_opt_field::<Bool>(members, "livestream")?;
        let sourcerelationship = read_opt_field::<Bool>(members, "sourcerelationship")?;
        let len = read_opt_field::<i32>(members, "len")?;
        let language = read_opt_field::<String>(members, "language")?;
        let embeddable = read_opt_field::<Bool>(members, "embeddable")?;
        let data = read_opt_field::<Vec<Data>>(members, "data")?;
        let videoquality = read_opt_field::<ProductionQuality>(members, "videoquality")?;
        let ext = read_raw_field(members, "ext");
        Ok(
            Content {
                id,
                episode,
                title,
                series,
                season,
                artist,
                genre,
                album,
                isrc,
                producer,
                url,
                cat,
                prodq,
                context,
                contentrating,
                userrating,
                qagmediarating,
                keywords,
                livestream,
                sourcerelationship,
                len,
                language,
                embeddable,
                data,
                videoquality,
                ext,
            },
        )
    }

    proof fn lemma_round_trip(value: ContentView) {
        Content::lemma_written_fields(value);
        let members = Content::encode_spec(value)->Object_0;
        lemma_opt_field_round_trip::<String>(members, "id"@, value.id);
        lemma_opt_field_round_trip::<i32>(members, "episode"@, value.episode);
        lemma_opt_field_round_trip::<String>(members, "title"@, value.title);
        lemma_opt_field_round_trip::<String>(members, "series"@, value.series);
        lemma_opt_field_round_trip::<String>(members, "season"@, value.season);
        lemma_opt_field_round_trip::<String>(members, "artist"@, value.artist);
        lemma_opt_field_round_trip::<String>(members, "genre"@, value.genre);
        lemma_opt_field_round_trip::<String>(members, "album"@, value.album);
        lemma_opt_field_round_trip::<String>(members, "isrc"@, value.isrc);
        lemma_opt_field_round_trip::<Producer>(members, "producer"@, value.producer);
        lemma_opt_field_round_trip::<String>(members, "url"@, value.url);
        lemma_opt_field_round_trip::<Vec<String>>(members, "cat"@, value.cat);
        lemma_opt_field_round_trip::<ProductionQuality>(members, "prodq"@, value.prodq);
        lemma_opt_field_round_trip::<ContentContext>(members, "context"@, value.context);
        lemma_opt_field_round_trip::<String>(members, "contentrating"@, value.contentrating);
        lemma_opt_field_round_trip::<String>(members, "userrating"@, value.userrating);
        lemma_opt_field_round_trip::<QagMediaRating>(
            members,
            "qagmediarating"@,
            value.qagmediarating,
        );
        lemma_opt_field_round_trip::<String>(members, "keywords"@, value.keywords);
        lemma_opt_field_round_trip::<Bool>(members, "livestream"@, value.livestream);
        lemma_opt_field_round_trip::<Bool>(
            members,
            "sourcerelationship"@,
            value.sourcerelationship,
        );
        lemma_opt_field_round_trip::<i32>(members, "len"@, value.len);
        lemma_opt_field_round_trip::<String>(members, "language"@, value.language);
        lemma_opt_field_round_trip::<Bool>(members, "embeddable"@, value.embeddable);
        lemma_opt_field_round_trip::<Vec<Data>>(members, "data"@, value.data);
        lemma_opt_field_round_trip::<ProductionQuality>(
            members,
            "videoquality"@,
            value.videoquality,
        );
    }
}

impl Content {
    /// What stands under each key on the wire: the wire form of the field of
    /// that name, whatever it holds, and nothing at all where the field is
    /// absent.
    pub proof fn lemma_written_fields(value: ContentView)
        ensures
            Content::encode_spec(value) matches JsonView::Object(members) && {
                &&& raw_field(members, "id"@) == encode_opt::<String>(value.id)
                &&& raw_field(members, "episode"@) == encode_opt::<i32>(value.episode)
                &&& raw_field(members, "title"@) == encode_opt::<String>(value.title)
                &&& raw_field(members, "series"@) == encode_opt::<String>(value.series)
                &&& raw_field(members, "season"@) == encode_opt::<String>(value.season)
                &&& raw_field(members, "artist"@) == encode_opt::<String>(value.artist)
                &&& raw_field(members, "genre"@) == encode_opt::<String>(value.genre)
                &&& raw_field(members, "album"@) == encode_opt::<String>(value.album)
                &&& raw_field(members, "isrc"@) == encode_opt::<String>(value.isrc)
                &&& raw_field(members, "producer"@) == encode_opt::<Producer>(value.producer)
                &&& raw_field(members, "url"@) == encode_opt::<String>(value.url)
                &&& raw_field(members, "cat"@) == encode_opt::<Vec<String>>(value.cat)
                &&& raw_field(members, "prodq"@) == encode_opt::<ProductionQuality>(value.prodq)
                &&& raw_field(members, "context"@) == encode_opt::<ContentContext>(value.context)
                &&& raw_field(members, "contentrating"@)
                    == encode_opt::<String>(value.contentrating)
                &&& raw_field(members, "userrating"@) == encode_opt::<String>(value.userrating)
                &&& raw_field(members, "qagmediarating"@)
                    == encode_opt::<QagMediaRating>(value.qagmediarating)
                &&& raw_field(members, "keywords"@) == encode_opt::<String>(value.keywords)
                &&& raw_field(members, "livestream"@) == encode_opt::<Bool>(value.livestream)
                &&& raw_field(members, "sourcerelationship"@)
                    == encode_opt::<Bool>(value.sourcerelationship)
                &&& raw_field(members, "len"@) == encode_opt::<i32>(value.len)
                &&& raw_field(members, "language"@) == encode_opt::<String>(value.language)
                &&& raw_field(members, "embeddable"@) == encode_opt::<Bool>(value.embeddable)
                &&& raw_field(members, "data"@) == encode_opt::<Vec<Data>>(value.data)
                &&& raw_field(members, "videoquality"@)
                    == encode_opt::<ProductionQuality>(value.videoquality)
                &&& raw_field(members, "ext"@) == value.ext
            },
    {
        Members::lemma_lookup();
        reveal_strlit("id");
        reveal_strlit("episode");
        reveal_strlit("title");
        reveal_strlit("series");
        reveal_strlit("season");
        reveal_strlit("artist");
        reveal_strlit("genre");
        reveal_strlit("album");
        reveal_strlit("isrc");
        reveal_strlit("producer");
        reveal_strlit("url");
        reveal_strlit("cat");
        reveal_strlit("prodq");
        reveal_strlit("context");
        reveal_strlit("contentrating");
        reveal_strlit("userrating");
        reveal_strlit("qagmediarating");
        reveal_strlit("keywords");
        reveal_strlit("livestream");
        reveal_strlit("sourcerelationship");
        reveal_strlit("len");
        reveal_strlit("language");
        reveal_strlit("embeddable");
        reveal_strlit("data");
        reveal_strlit("videoquality");
        reveal_strlit("ext");
        lemma_head("id"@);
        lemma_head("episode"@);
        lemma_head("title"@);
        lemma_head("series"@);
        lemma_head("season"@);
        lemma_head("artist"@);
        lemma_head("genre"@);
        lemma_head("album"@);
        lemma_head("isrc"@);
        lemma_head("producer"@);
        lemma_head("url"@);
        lemma_head("cat"@);
        lemma_head("prodq"@);
        lemma_head("context"@);
        lemma_head("contentrating"@);
        lemma_head("userrating"@);
        lemma_head("qagmediarating"@);
        lemma_head("keywords"@);
        lemma_head("livestream"@);
        lemma_head("sourcerelationship"@);
        lemma_head("len"@);
        lemma_head("language"@);
        lemma_head("embeddable"@);
        lemma_head("data"@);
        lemma_head("videoquality"@);
        lemma_head("ext"@);
    }

    /// An optional field that is absent leaves no key on the wire, and a field
    /// that is present has its key, also where it holds zero, false or nothing.
    pub proof fn lemma_written_keys(value: ContentView)
        ensures
            Content::encode_spec(value) matches JsonView::Object(members) && {
                &&& members.contains_key("id"@) <==> value.id is Some
                &&& members.contains_key("episode"@) <==> value.episode is Some
                &&& members.contains_key("title"@) <==> value.title is Some
                &&& members.contains_key("series"@) <==> value.series is Some
                &&& members.contains_key("season"@) <==> value.season is Some
                &&& members.contains_key("artist"@) <==> value.artist is Some
                &&& members.contains_key("genre"@) <==> value.genre is Some
                &&& members.contains_key("album"@) <==> value.album is Some
                &&& members.contains_key("isrc"@) <==> value.isrc is Some
                &&& members.contains_key("producer"@) <==> value.producer is Some
                &&& members.contains_key("url"@) <==> value.url is Some
                &&& members.contains_key("cat"@) <==> value.cat is Some
                &&& members.contains_key("prodq"@) <==> value.prodq is Some
                &&& members.contains_key("context"@) <==> value.context is Some
                &&& members.contains_key("contentrating"@) <==> value.contentrating is Some
                &&& members.contains_key("userrating"@) <==> value.userrating is Some
                &&& members.contains_key("qagmediarating"@) <==> value.qagmediarating is Some
                &&& members.contains_key("keywords"@) <==> value.keywords is Some
                &&& members.contains_key("livestream"@) <==> value.livestream is Some
                &&& members.contains_key("sourcerelationship"@) <==> value.sourcerelationship is Some
                &&& members.contains_key("len"@) <==> value.len is Some
                &&& members.contains_key("language"@) <==> value.language is Some
                &&& members.contains_key("embeddable"@) <==> value.embeddable is Some
                &&& members.contains_key("data"@) <==> value.data is Some
                &&& members.contains_key("videoquality"@) <==> value.videoquality is Some
                &&& members.contains_key("ext"@) <==> value.ext is Some
            },
    {
        Content::lemma_written_fields(value);
    }
}

impl Record for Content {
    open spec fn claims(key: Seq<char>) -> bool {
        ||| key == "id"@
        ||| key == "episode"@
        ||| key == "title"@
        ||| key == "series"@
        ||| key == "season"@
        ||| key == "artist"@
        ||| key == "genre"@
        ||| key == "album"@
        ||| key == "isrc"@
        ||| key == "producer"@
        ||| key == "url"@
        ||| key == "cat"@
        ||| key == "prodq"@
        ||| key == "context"@
        ||| key == "contentrating"@
        ||| key == "userrating"@
        ||| key == "qagmediarating"@
        ||| key == "keywords"@
        ||| key == "livestream"@
        ||| key == "sourcerelationship"@
        ||| key == "len"@
        ||| key == "language"@
        ||| key == "embeddable"@
        ||| key == "data"@
        ||| key == "videoquality"@
        ||| key == "ext"@
    }

    proof fn lemma_writes_claimed_keys(value: ContentView) {
        Members::lemma_lookup();
        let members = Content::encode_spec(value)->Object_0;
        assert forall|key: Seq<char>| #[trigger] members.contains_key(key) implies Content::claims(
            key,
        ) by {
            assert(raw_field(members, key) is Some);
        }
    }

    proof fn lemma_unclaimed_key_is_passed_over(
        members: Map<Seq<char>, JsonView>,
        key: Seq<char>,
        value: JsonView,
    ) {
        lemma_other_key::<String>(members, "id"@, key, value);
        lemma_other_key::<i32>(members, "episode"@, key, value);
        lemma_other_key::<String>(members, "title"@, key, value);
        lemma_other_key::<String>(members, "series"@, key, value);
        lemma_other_key::<String>(members, "season"@, key, value);
        lemma_other_key::<String>(members, "artist"@, key, value);
        lemma_other_key::<String>(members, "genre"@, key, value);
        lemma_other_key::<String>(members, "album"@, key, value);
        lemma_other_key::<String>(members, "isrc"@, key, value);
        lemma_other_key::<Producer>(members, "producer"@, key, value);
        lemma_other_key::<String>(members, "url"@, key, value);
        lemma_other_key::<Vec<String>>(members, "cat"@, key, value);
        lemma_other_key::<ProductionQuality>(members, "prodq"@, key, value);
        lemma_other_key::<ContentContext>(members, "context"@, key, value);
        lemma_other_key::<String>(members, "contentrating"@, key, value);
        lemma_other_key::<String>(members, "userrating"@, key, value);
        lemma_other_key::<QagMediaRating>(members, "qagmediarating"@, key, value);
        lemma_other_key::<String>(members, "keywords"@, key, value);
        lemma_other_key::<Bool>(members, "livestream"@, key, value);
        lemma_other_key::<Bool>(members, "sourcerelationship"@, key, value);
        lemma_other_key::<i32>(members, "len"@, key, value);
        lemma_other_key::<String>(members, "language"@, key, value);
        lemma_other_key::<Bool>(members, "embeddable"@, key, value);
        lemma_other_key::<Vec<Data>>(members, "data"@, key, value);
        lemma_other_key::<ProductionQuality>(members, "videoquality"@, key, value);
        lemma_other_key_raw(members, "ext"@, key, value);
    }
}

/// The producer of content, where that is not its publisher.
#[derive(Clone, Debug, PartialEq)]
pub struct Producer {
    /// Content producer or originator ID. Useful if content is syndicated, and may be
    /// posted on a site using embed tags.
    pub id: Option<String>,
    /// Content producer or originator name (e.g., "Warner Bros").
    pub name: Option<String>,
    /// Array of IAB content categories that describe the content producer. See enum
    /// ContentCategory.
    pub cat: Option<Vec<String>>,
    /// Highest level domain of the content producer (e.g., "producer.com").
    pub domain: Option<String>,
    /// Vendor extensions, carried as they are.
    pub ext: Option<Json>,
}

/// The mathematical value of a [`Producer`].
pub struct ProducerView {
    pub id: Option<Seq<char>>,
    pub name: Option<Seq<char>>,
    pub cat: Option<Seq<Seq<char>>>,
    pub domain: Option<Seq<char>>,
    pub ext: Option<JsonView>,
}

impl DeepView for Producer {
    type V = ProducerView;

    open spec fn deep_view(&self) -> ProducerView {
        ProducerView {
            id: opt_view(self.id),
            name: opt_view(self.name),
            cat: opt_view(self.cat),
            domain: opt_view(self.domain),
            ext: opt_view(self.ext),
        }
    }
}

impl ProducerView {
    /// The value in which every optional field is absent and every required
    /// field is empty or zero.
    pub open spec fn empty() -> ProducerView {
        ProducerView {
            id: None,
            name: None,
            cat: None,
            domain: None,
            ext: None,
        }
    }
}

impl Default for Producer {
    fn default() -> (value: Producer)
        ensures
            value.deep_view() == ProducerView::empty(),
    {
        let value = Producer {
            id: None,
            name: None,
            cat: None,
            domain: None,
            ext: None,
        };
        proof {
            reveal(opt_view);
        }
        value
    }
}

impl Wire for Producer {
    open spec fn encode_spec(value: ProducerView) -> JsonView {
        Members::empty()
            .with_opt("id"@, encode_opt::<String>(value.id))
            .with_opt("name"@, encode_opt::<String>(value.name))
            .with_opt("cat"@, encode_opt::<Vec<String>>(value.cat))
            .with_opt("domain"@, encode_opt::<String>(value.domain))
            .with_opt("ext"@, value.ext)
            .json()
    }

    open spec fn decode_spec(doc: JsonView) -> Result<ProducerView, DecodeErrorView> {
        match doc {
            JsonView::Object(members) => {
                let id = opt_field::<String>(members, "id"@);
                let name = opt_field::<String>(members, "name"@);
                let cat = opt_field::<Vec<String>>(members, "cat"@);
                let domain = opt_field::<String>(members, "domain"@);
                let ext = raw_field(members, "ext"@);
                if id is Err {
                    Err(id->Err_0)
                } else if name is Err {
                    Err(name->Err_0)
                } else if cat is Err {
                    Err(cat->Err_0)
                } else if domain is Err {
                    Err(domain->Err_0)
                } else {
                    Ok(
                        ProducerView {
                            id: id->Ok_0,
                            name: name->Ok_0,
                            cat: cat->Ok_0,
                            domain: domain->Ok_0,
                            ext,
                        },
                    )
                }
            },
            _ => wrong_type(),
        }
    }

    fn encode(&self) -> (doc: Json) {
        let mut object = ObjectWriter::new();
        object.opt_field("id", &self.id);
        object.opt_field("name", &self.name);
        object.opt_field("cat", &self.cat);
        object.opt_field("domain", &self.domain);
        object.raw_field("ext", &self.ext);
        object.finish()
    }

    fn decode(doc: &Json) -> (result: Result<Producer, DecodeError>) {
        let members = read_members(doc)?;
        let id = read_opt_field::<String>(members, "id")?;
        let name = read_opt_field::<String>(members, "name")?;
        let cat = read_opt_field::<Vec<String>>(members, "cat")?;
        let domain = read_opt_field::<String>(members, "domain")?;
        let ext = read_raw_field(members, "ext");
        Ok(
            Producer {
                id,
                name,
                cat,
                domain,
                ext,
            },
        )
    }

    proof fn lemma_round_trip(value: ProducerView) {
        Producer::lemma_written_fields(value);
        let members = Producer::encode_spec(value)->Object_0;
        lemma_opt_field_round_trip::<String>(members, "id"@, value.id);
        lemma_opt_field_round_trip::<String>(members, "name"@, value.name);
        lemma_opt_field_round_trip::<Vec<String>>(members, "cat"@, value.cat);
        lemma_opt_field_round_trip::<String>(members, "domain"@, value.domain);
    }
}

impl Producer {
    /// What stands under each key on the wire: the wire form of the field of
    /// that name, whatever it holds, and nothing at all where the field is
    /// absent.
    pub proof fn lemma_written_fields(value: ProducerView)
        ensures
            Producer::encode_spec(value) matches JsonView::Object(members) && {
                &&& raw_field(members, "id"@) == encode_opt::<String>(value.id)
                &&& raw_field(members, "name"@) == encode_opt::<String>(value.name)
                &&& raw_field(members, "cat"@) == encode_opt::<Vec<String>>(value.cat)
                &&& raw_field(members, "domain"@) == encode_opt::<String>(value.domain)
                &&& raw_field(members, "ext"@) == value.ext
            },
    {
        Members::lemma_lookup();
        reveal_strlit("id");
        reveal_strlit("name");
        reveal_strlit("cat");
        reveal_strlit("domain");
        reveal_strlit("ext");
        lemma_head("id"@);
        lemma_head("name"@);
        lemma_head("cat"@);
        lemma_head("domain"@);
        lemma_head("ext"@);
    }

    /// An optional field that is absent leaves no key on the wire, and a field
    /// that is present has its key, also where it holds zero, false or nothing.
    pub proof fn lemma_written_keys(value: ProducerView)
        ensures
            Producer::encode_spec(value) matches JsonView::Object(members) && {
                &&& members.contains_key("id"@) <==> value.id is Some
                &&& members.contains_key("name"@) <==> value.name is Some
                &&& members.contains_key("cat"@) <==> value.cat is Some
                &&& members.contains_key("domain"@) <==> value.domain is Some
                &&& members.contains_key("ext"@) <==> value.ext is Some
            },
    {
        Producer::lemma_written_fields(value);
    }
}

impl Record for Producer {
    open spec fn claims(key: Seq<char>) -> bool {
        ||| key == "id"@
        ||| key == "name"@
        ||| key == "cat"@
        ||| key == "domain"@
        ||| key == "ext"@
    }

    proof fn lemma_writes_claimed_keys(value: ProducerView) {
        Members::lemma_lookup();
        let members = Producer::encode_spec(value)->Object_0;
        assert forall|key: Seq<char>| #[trigger] members.contains_key(key) implies Producer::claims(
            key,
        ) by {
            assert(raw_field(members, key) is Some);
        }
    }

    proof fn lemma_unclaimed_key_is_passed_over(
        members: Map<Seq<char>, JsonView>,
        key: Seq<char>,
        value: JsonView,
    ) {
        lemma_other_key::<String>(members, "id"@, key, value);
        lemma_other_key::<String>(members, "name"@, key, value);
        lemma_other_key::<Vec<String>>(members, "cat"@, key, value);
        lemma_other_key::<String>(members, "domain"@, key, value);
        lemma_other_key_raw(members, "ext"@, key, value);
    }
}

} // verus!
