//! The reader configuration of a chapter page: where its images come from and which chapters stand beside it.

use vstd::prelude::*;
use crate::dom::{
    compile, compiled, element_result, inner_html_of, lookup_first, read_inner_html,
    select_first,
};
use crate::error::{ErrorView, RawKumaResult, result_view};
use crate::scalar::{absolute_url, absolute_url_of, optional_url_of};
use crate::text::{extract_json_from_string, framed};
use crate::types::{
    all_or_first_failure, is_first_failure, lemma_first_failure_unique, option_text, views,
};

verus! {

/// One image source as the page configures it, its addresses still raw.
#[derive(Clone, Debug)]
pub struct SourceConfig {
    /// The name of the server.
    pub source: String,
    /// The addresses of the images, as written.
    pub images: Vec<String>,
}

/// Mathematical model of a [`SourceConfig`].
pub struct SourceConfigView {
    pub source: Seq<char>,
    pub images: Seq<Seq<char>>,
}

impl View for SourceConfig {
    type V = SourceConfigView;

    open spec fn view(&self) -> SourceConfigView {
        SourceConfigView {
            source: self.source@,
            images: views(self.images@),
        }
    }
}

/// The reader configuration as the page writes it, decoded and not yet checked.
#[derive(Clone, Debug)]
pub struct ReaderConfig {
    /// The number of the chapter post.
    pub post_id: usize,
    /// The address of the previous chapter; empty where there is none.
    pub prev_url: String,
    /// The address of the next chapter; empty where there is none.
    pub next_url: String,
    /// The image sources, in the order of the page.
    pub sources: Vec<SourceConfig>,
}

/// Mathematical model of a [`ReaderConfig`].
pub struct ReaderConfigView {
    pub post_id: usize,
    pub prev_url: Seq<char>,
    pub next_url: Seq<char>,
    pub sources: Seq<SourceConfigView>,
}

impl View for ReaderConfig {
    type V = ReaderConfigView;

    open spec fn view(&self) -> ReaderConfigView {
        ReaderConfigView {
            post_id: self.post_id,
            prev_url: self.prev_url@,
            next_url: self.next_url@,
            sources: views(self.sources@),
        }
    }
}

/// The images that one server offers for a chapter.
#[derive(Clone, Debug)]
pub struct ImagesSources {
    /// The name of the server.
    pub source: String,
    /// The images, in reading order: absolute URLs.
    pub images: Vec<String>,
}

/// Mathematical model of a [`ImagesSources`].
pub struct ImagesSourcesView {
    pub source: Seq<char>,
    pub images: Seq<Seq<char>>,
}

impl View for ImagesSources {
    type V = ImagesSourcesView;

    open spec fn view(&self) -> ImagesSourcesView {
        ImagesSourcesView {
            source: self.source@,
            images: views(self.images@),
        }
    }
}

/// The checked reader configuration of a chapter.
#[derive(Clone, Debug)]
pub struct TSReaderArgs {
    /// The number of the chapter post.
    pub post_id: usize,
    /// The previous chapter, where there is one: an absolute URL.
    pub prev_url: Option<String>,
    /// The next chapter, where there is one: an absolute URL.
    pub next_url: Option<String>,
    /// The image sources, in the order of the page.
    pub sources: Vec<ImagesSources>,
}

/// Mathematical model of a [`TSReaderArgs`].
pub struct TSReaderArgsView {
    pub post_id: usize,
    pub prev_url: Option<Seq<char>>,
    pub next_url: Option<Seq<char>>,
    pub sources: Seq<ImagesSourcesView>,
}

impl View for TSReaderArgs {
    type V = TSReaderArgsView;

    open spec fn view(&self) -> TSReaderArgsView {
        TSReaderArgsView {
            post_id: self.post_id,
            prev_url: option_text(self.prev_url),
            next_url: option_text(self.next_url),
            sources: views(self.sources@),
        }
    }
}

/// What reading the images of one source yields: each address made
/// absolute, or the first that is none.
pub open spec fn source_of(config: SourceConfigView) -> Result<ImagesSourcesView, ErrorView> {
    match all_or_first_failure(config.images.map_values(|raw: Seq<char>| absolute_url_of(raw))) {
        Err(error) => Err(error),
        Ok(images) => Ok(ImagesSourcesView { source: config.source, images }),
    }
}

/// What reading a reader configuration yields. An empty previous or next
/// address means that there is none; any other address must be an absolute
/// URL, as must every image address.
pub open spec fn reader_args_of(config: ReaderConfigView) -> Result<TSReaderArgsView, ErrorView> {
    match optional_url_of(config.prev_url) {
        Err(error) => Err(error),
        Ok(prev_url) => match optional_url_of(config.next_url) {
            Err(error) => Err(error),
            Ok(next_url) => match all_or_first_failure(
                config.sources.map_values(|s: SourceConfigView| source_of(s)),
            ) {
                Err(error) => Err(error),
                Ok(sources) => Ok(
                    TSReaderArgsView { post_id: config.post_id, prev_url, next_url, sources },
                ),
            },
        },
    }
}

/// Reads an address that may be left empty: nothing for the empty string,
/// else the absolute URL that the text writes.
pub fn optional_url(raw: &str) -> (r: RawKumaResult<Option<String>>)
    ensures
        match r {
            Ok(url) => optional_url_of(raw@) == Ok::<Option<Seq<char>>, ErrorView>(option_text(url)),
            Err(error) => optional_url_of(raw@) == Err::<Option<Seq<char>>, ErrorView>(error@),
        },
{
    if raw.unicode_len() == 0 {
        return Ok(None);
    }
    let url = absolute_url(raw)?;
    Ok(Some(url))
}

impl ImagesSources {
    /// Reads the images of one source. The first address that is no
    /// absolute URL fails the source.
    pub fn from_config(config: &SourceConfig) -> (r: RawKumaResult<ImagesSources>)
        ensures
            result_view(r) == source_of(config@),
    {
        let ghost outcomes = config@.images.map_values(|raw: Seq<char>| absolute_url_of(raw));
        let mut images: Vec<String> = Vec::new();
        let mut i: usize = 0;
        while i < config.images.len()
            invariant
                i <= config.images@.len(),
                outcomes == config@.images.map_values(|raw: Seq<char>| absolute_url_of(raw)),
                outcomes.len() == config.images@.len(),
                forall|j: int| 0 <= j < i ==> (#[trigger] outcomes[j]) is Ok,
                views(images@) == outcomes.take(i as int).map_values(
                    |o: Result<Seq<char>, ErrorView>| o->Ok_0,
                ),
            decreases config.images@.len() - i,
        {
            proof {
                assert(outcomes[i as int] == absolute_url_of(config.images@[i as int]@));
            }
            match absolute_url(config.images[i].as_str()) {
                Ok(url) => {
                    proof {
                        assert(views(images@.push(url)) =~= views(images@).push(url@));
                        assert(outcomes.take(i + 1).map_values(
                            |o: Result<Seq<char>, ErrorView>| o->Ok_0,
                        ) =~= outcomes.take(i as int).map_values(
                            |o: Result<Seq<char>, ErrorView>| o->Ok_0,
                        ).push(url@));
                    }
                    images.push(url);
                },
                Err(error) => {
                    proof {
                        assert(is_first_failure(outcomes, i as int));
                        lemma_first_failure_unique(outcomes, i as int);
                    }
                    return Err(error);
                },
            }
            i = i + 1;
        }
        proof {
            assert(outcomes.take(i as int) =~= outcomes);
        }
        Ok(ImagesSources { source: config.source.clone(), images })
    }
}

impl TSReaderArgs {
    /// The selector of the script that configures the reader.
    pub fn get_ts_reader_script_selector() -> (r: RawKumaResult<scraper::Selector>)
        ensures
            compiled(r, "div.readingnav.rnavbot + script"@),
    {
        compile("div.readingnav.rnavbot + script")
    }

    /// The script that configures the reader.
    pub fn get_ts_reader_script_element<'a>(element: &scraper::ElementRef<'a>) -> (r: RawKumaResult<
        scraper::ElementRef<'a>,
    >)
        ensures
            element_result(r) == lookup_first(
                *element,
                "div.readingnav.rnavbot + script"@,
                "div.readingnav.rnavbot + script"@,
            ),
    {
        select_first(
            element,
            "div.readingnav.rnavbot + script",
            "div.readingnav.rnavbot + script",
        )
    }

    /// The configuration object that a reader script holds, as JSON text:
    /// the braced part of the script.
    pub fn script_json(data: &scraper::ElementRef) -> (json: String)
        ensures
            json@ == framed(inner_html_of(*data)),
    {
        let script = read_inner_html(data);
        extract_json_from_string(script.as_str())
    }

    /// Reads a decoded reader configuration. The first address that does
    /// not hold fails the whole configuration.
    pub fn from_config(config: &ReaderConfig) -> (r: RawKumaResult<TSReaderArgs>)
        ensures
            result_view(r) == reader_args_of(config@),
    {
        let prev_url = optional_url(config.prev_url.as_str())?;
        let next_url = optional_url(config.next_url.as_str())?;
        let ghost outcomes = config@.sources.map_values(|s: SourceConfigView| source_of(s));
        let mut sources: Vec<ImagesSources> = Vec::new();
        let mut i: usize = 0;
        while i < config.sources.len()
            invariant
                i <= config.sources@.len(),
                optional_url_of(config@.prev_url) is Ok,
                optional_url_of(config@.next_url) is Ok,
                outcomes == config@.sources.map_values(|s: SourceConfigView| source_of(s)),
                outcomes.len() == config.sources@.len(),
                forall|j: int| 0 <= j < i ==> (#[trigger] outcomes[j]) is Ok,
                views(sources@) == outcomes.take(i as int).map_values(
                    |o: Result<ImagesSourcesView, ErrorView>| o->Ok_0,
                ),
            decreases config.sources@.len() - i,
        {
            proof {
                assert(outcomes[i as int] == source_of(config.sources@[i as int]@));
            }
            match ImagesSources::from_config(&config.sources[i]) {
                Ok(source) => {
                    proof {
                        assert(views(sources@.push(source)) =~= views(sources@).push(source@));
                        assert(outcomes.take(i + 1).map_values(
                            |o: Result<ImagesSourcesView, ErrorView>| o->Ok_0,
                        ) =~= outcomes.take(i as int).map_values(
                            |o: Result<ImagesSourcesView, ErrorView>| o->Ok_0,
                        ).push(source@));
                    }
                    sources.push(source);
                },
                Err(error) => {
                    proof {
                        assert(is_first_failure(outcomes, i as int));
                        lemma_first_failure_unique(outcomes, i as int);
                    }
                    return Err(error);
                },
            }
            i = i + 1;
        }
        proof {
            assert(outcomes.take(i as int) =~= outcomes);
        }
        Ok(TSReaderArgs { post_id: config.post_id, prev_url, next_url, sources })
    }
}

} // verus!
