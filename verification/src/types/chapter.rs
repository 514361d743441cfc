//! The reader page of one chapter.

use vstd::prelude::*;
use crate::error::{BuilderError, BuilderErrorView, ErrorView, RawKumaResult, finished};
use crate::types::{FromHtmlParser, views};
use crate::types::bsx::{BsxTitleData, BsxTitleDataView, cards_of};
use crate::parser::chapter::RawKumaChapterParser;
use crate::types::reader_area::{ReaderArea, ReaderAreaImage, ReaderAreaImageView};
use crate::types::ts_reader_args::{ImagesSourcesView, TSReaderArgs, TSReaderArgsView};

verus! {

/// A chapter with its images and the series related to it.
#[derive(Clone, Debug)]
pub struct RawKumaChapterData {
    /// The title of the chapter.
    pub title: String,
    /// Where the images of the chapter come from.
    pub sources: TSReaderArgs,
    /// The related series, in document order.
    pub related_mangas: Vec<BsxTitleData>,
}

/// Mathematical model of a [`RawKumaChapterData`].
pub struct RawKumaChapterDataView {
    pub title: Seq<char>,
    pub sources: TSReaderArgsView,
    pub related_mangas: Seq<BsxTitleDataView>,
}

impl View for RawKumaChapterData {
    type V = RawKumaChapterDataView;

    open spec fn view(&self) -> RawKumaChapterDataView {
        RawKumaChapterDataView {
            title: self.title@,
            sources: self.sources@,
            related_mangas: views(self.related_mangas@),
        }
    }
}

/// Collects the fields of a [`RawKumaChapterData`] one by one; `build` yields the record
/// once every field has been set.
#[derive(Clone, Debug)]
pub struct RawKumaChapterDataBuilder {
    pub title: Option<String>,
    pub sources: Option<TSReaderArgs>,
    pub related_mangas: Option<Vec<BsxTitleData>>,
}

impl Default for RawKumaChapterDataBuilder {
    fn default() -> (b: RawKumaChapterDataBuilder)
        ensures
            b.title is None,
            b.sources is None,
            b.related_mangas is None,
    {
        RawKumaChapterDataBuilder {
            title: None,
            sources: None,
            related_mangas: None,
        }
    }
}

impl RawKumaChapterDataBuilder {
    /// The name of the first field, in the order of the record, that has
    /// not been set.
    pub open spec fn missing(&self) -> Option<Seq<char>> {
        if self.title is None {
            Some("title"@)
        } else if self.sources is None {
            Some("sources"@)
        } else if self.related_mangas is None {
            Some("related_mangas"@)
        } else {
            None
        }
    }

    /// The record that the fields make up, once none is missing.
    pub open spec fn complete(&self) -> RawKumaChapterData {
        RawKumaChapterData {
            title: self.title->Some_0,
            sources: self.sources->Some_0,
            related_mangas: self.related_mangas->Some_0,
        }
    }

    /// Sets `title`.
    pub fn title(self, value: String) -> (b: RawKumaChapterDataBuilder)
        ensures
            b == (RawKumaChapterDataBuilder {
                title: Some(value),
                sources: self.sources,
                related_mangas: self.related_mangas,
            }),
    {
        RawKumaChapterDataBuilder {
            title: Some(value),
            sources: self.sources,
            related_mangas: self.related_mangas,
        }
    }

    /// Sets `sources`.
    pub fn sources(self, value: TSReaderArgs) -> (b: RawKumaChapterDataBuilder)
        ensures
            b == (RawKumaChapterDataBuilder {
                title: self.title,
                sources: Some(value),
                related_mangas: self.related_mangas,
            }),
    {
        RawKumaChapterDataBuilder {
            title: self.title,
            sources: Some(value),
            related_mangas: self.related_mangas,
        }
    }

    /// Sets `related_mangas`.
    pub fn related_mangas(self, value: Vec<BsxTitleData>) -> (b: RawKumaChapterDataBuilder)
        ensures
            b == (RawKumaChapterDataBuilder {
                title: self.title,
                sources: self.sources,
                related_mangas: Some(value),
            }),
    {
        RawKumaChapterDataBuilder {
            title: self.title,
            sources: self.sources,
            related_mangas: Some(value),
        }
    }

    /// Yields the record, or names the first field that was never set.
    pub fn build(self) -> (r: Result<RawKumaChapterData, BuilderError>)
        ensures
            match self.missing() {
                Some(field) => r is Err && r->Err_0@ == BuilderErrorView::UninitializedField(field),
                None => r == Ok::<RawKumaChapterData, BuilderError>(self.complete()),
            },
    {
        let title = match self.title {
            Some(value) => value,
            None => return Err(BuilderError::UninitializedField(String::from_str("title"))),
        };
        let sources = match self.sources {
            Some(value) => value,
            None => return Err(BuilderError::UninitializedField(String::from_str("sources"))),
        };
        let related_mangas = match self.related_mangas {
            Some(value) => value,
            None => return Err(BuilderError::UninitializedField(String::from_str("related_mangas"))),
        };
        Ok(RawKumaChapterData { title, sources, related_mangas })
    }
}

impl<'a> FromHtmlParser<'a, RawKumaChapterParser<'a>> for RawKumaChapterData {
    open spec fn assembled(parser: RawKumaChapterParser<'a>) -> Result<
        RawKumaChapterDataView,
        ErrorView,
    > {
        match parser.entry_title() {
            Err(error) => Err(error),
            Ok(title) => match parser.ts_reader_args() {
                Err(error) => Err(error),
                Ok(sources) => match cards_of(parser.content) {
                    Err(error) => Err(error),
                    Ok(related_mangas) => Ok(
                        RawKumaChapterDataView { title, sources, related_mangas },
                    ),
                },
            },
        }
    }

    fn from(parser: RawKumaChapterParser<'a>) -> (r: RawKumaResult<RawKumaChapterData>) {
        let title = parser.get_entry_title()?;
        let sources = parser.get_ts_reader_args()?;
        let related_mangas = parser.get_related_manga()?;
        finished(
            RawKumaChapterDataBuilder::default().title(title).sources(sources).related_mangas(
                related_mangas,
            ).build(),
        )
    }
}

/// One page image of a chapter, in the shape in which the page gave it.
#[derive(Clone, Debug)]
pub enum ReaderImage {
    /// An image element of the reader area, with what it says of itself.
    Decoded(ReaderAreaImage),
    /// An address that the reader configuration lists for a server.
    Served {
        /// The place of the image among those of its server, from zero.
        index: u32,
        /// The name of the server.
        server: String,
        /// The address of the image: an absolute URL.
        url: String,
    },
}

/// Mathematical model of a [`ReaderImage`].
pub enum ReaderImageView {
    Decoded(ReaderAreaImageView),
    Served { index: u32, server: Seq<char>, url: Seq<char> },
}

impl View for ReaderImage {
    type V = ReaderImageView;

    open spec fn view(&self) -> ReaderImageView {
        match self {
            ReaderImage::Decoded(image) => ReaderImageView::Decoded(image@),
            ReaderImage::Served { index, server, url } => ReaderImageView::Served {
                index: *index,
                server: server@,
                url: url@,
            },
        }
    }
}

/// How many images of one server can be numbered.
pub open spec fn numbered(count: nat) -> nat {
    if count <= 0xffff_ffff {
        count
    } else {
        0x1_0000_0000
    }
}

/// The images that one server offers, numbered from zero in reading order.
pub open spec fn served_from(source: ImagesSourcesView) -> Seq<ReaderImageView> {
    Seq::new(
        numbered(source.images.len()),
        |i: int|
            ReaderImageView::Served {
                index: i as u32,
                server: source.source,
                url: source.images[i],
            },
    )
}

/// The images of all servers, server after server.
pub open spec fn served_images(sources: Seq<ImagesSourcesView>) -> Seq<ReaderImageView>
    decreases sources.len(),
{
    if sources.len() == 0 {
        Seq::empty()
    } else {
        served_images(sources.drop_last()) + served_from(sources.last())
    }
}

/// The images of a reader area, each as a reader image.
pub open spec fn decoded_images(images: Seq<ReaderAreaImageView>) -> Seq<ReaderImageView> {
    images.map_values(|image: ReaderAreaImageView| ReaderImageView::Decoded(image))
}

impl ReaderImage {
    /// The images that a reader configuration lists, server after server,
    /// each numbered within its server.
    pub fn served(args: &TSReaderArgs) -> (images: Vec<ReaderImage>)
        ensures
            views(images@) == served_images(args@.sources),
    {
        let mut images: Vec<ReaderImage> = Vec::new();
        let mut s: usize = 0;
        proof {
            assert(views(images@) =~= served_images(args@.sources.take(0)));
        }
        while s < args.sources.len()
            invariant
                s <= args.sources@.len(),
                views(images@) == served_images(args@.sources.take(s as int)),
            decreases args.sources@.len() - s,
        {
            let source = &args.sources[s];
            let ghost done = views(images@);
            let ghost model = source@;
            proof {
                assert(args@.sources.take(s + 1).drop_last() =~= args@.sources.take(s as int));
                assert(args@.sources.take(s + 1).last() == model);
                assert(model.images.len() == source.images@.len());
            }
            let mut i: usize = 0;
            while i < source.images.len() && i <= 0xffff_ffff
                invariant
                    i <= source.images@.len(),
                    i <= numbered(source.images@.len() as nat),
                    model == source@,
                    views(images@) == done + served_from(model).take(i as int),
                decreases source.images@.len() - i,
            {
                let image = ReaderImage::Served {
                    index: i as u32,
                    server: source.source.clone(),
                    url: source.images[i].clone(),
                };
                proof {
                    assert(image@ == served_from(model)[i as int]);
                    assert(views(images@.push(image)) =~= views(images@).push(image@));
                    assert(done + served_from(model).take(i + 1) =~= (done + served_from(
                        model,
                    ).take(i as int)).push(image@));
                }
                images.push(image);
                i = i + 1;
            }
            proof {
                assert(served_from(model).take(i as int) =~= served_from(model));
            }
            s = s + 1;
        }
        proof {
            assert(args@.sources.take(s as int) =~= args@.sources);
        }
        images
    }

    /// The images of a reader area, in the order of the area.
    pub fn decoded(area: ReaderArea) -> (images: Vec<ReaderImage>)
        ensures
            views(images@) == decoded_images(area@.images),
    {
        let mut source = area.images;
        let ghost all = views(source@);
        let mut reversed: Vec<ReaderImage> = Vec::new();
        while source.len() > 0
            invariant
                source@.len() <= all.len(),
                views(source@) == all.take(source@.len() as int),
                reversed@.len() == all.len() - source@.len(),
                forall|k: int|
                    0 <= k < reversed@.len() ==> (#[trigger] reversed@[k])@
                        == ReaderImageView::Decoded(all[all.len() - 1 - k]),
            decreases source@.len(),
        {
            let ghost n = source@.len() as int;
            let ghost shorter = source@.drop_last();
            match source.pop() {
                Some(image) => {
                    proof {
                        assert(image@ == all.take(n)[n - 1]);
                        assert(views(shorter) =~= all.take(n - 1));
                    }
                    reversed.push(ReaderImage::Decoded(image));
                },
                None => {},
            }
        }
        let mut images: Vec<ReaderImage> = Vec::new();
        while reversed.len() > 0
            invariant
                reversed@.len() <= all.len(),
                images@.len() == all.len() - reversed@.len(),
                forall|k: int|
                    0 <= k < reversed@.len() ==> (#[trigger] reversed@[k])@
                        == ReaderImageView::Decoded(all[all.len() - 1 - k]),
                forall|k: int|
                    0 <= k < images@.len() ==> (#[trigger] images@[k])@ == ReaderImageView::Decoded(
                        all[k],
                    ),
            decreases reversed@.len(),
        {
            match reversed.pop() {
                Some(image) => {
                    images.push(image);
                },
                None => {},
            }
        }
        proof {
            assert(views(images@) =~= decoded_images(all));
        }
        images
    }
}

impl RawKumaChapterData {
    /// The page images of the chapter, as its reader configuration lists
    /// them.
    pub fn images(&self) -> (images: Vec<ReaderImage>)
        ensures
            views(images@) == served_images(self@.sources.sources),
    {
        ReaderImage::served(&self.sources)
    }
}

} // verus!
