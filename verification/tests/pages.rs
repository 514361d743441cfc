use rawkuma_scraper::error::{BuilderError, Error};
use rawkuma_scraper::parser::chapter::RawKumaChapterParser;
use rawkuma_scraper::parser::home::RawKumaHomeParser;
use rawkuma_scraper::parser::manga_details::RawKumaMangaDetailParser;
use rawkuma_scraper::parser::search::RawKumaSearchParser;
use rawkuma_scraper::parser::{get_content_element, get_content_selector, HtmlParser};
use rawkuma_scraper::scalar::Decimal;
use rawkuma_scraper::types::bixbox::BixboxData;
use rawkuma_scraper::types::bsx::BsxTitleData;
use rawkuma_scraper::types::chapter::{RawKumaChapterData, ReaderImage};
use rawkuma_scraper::types::chapterlist::{Chapter, ChapterList};
use rawkuma_scraper::types::genre_tag::MgenTag;
use rawkuma_scraper::types::home::RawKumaHomeData;
use rawkuma_scraper::types::manga::RawKumaMangaDetailData;
use rawkuma_scraper::types::reader_area::{ReaderArea, ReaderAreaImage};
use rawkuma_scraper::types::search::RawKumaSearch;
use rawkuma_scraper::types::ts_reader_args::{ImagesSources, ReaderConfig, SourceConfig, TSReaderArgs};
use rawkuma_scraper::types::utao::{UtaoTitleChapter, UtaoTitleData};
use rawkuma_scraper::types::{FromElementRef, FromHtmlParser};
use scraper::Html;

fn card(slug: &str, rating: &str) -> String {
    format!(
        "<div class=\"bsx\"><a href=\"https://site.example/manga/{slug}/\" title=\"Title {slug}\">\
         <div class=\"limit\"><img src=\"//img.example/{slug}.jpg\"></div>\
         <div class=\"numscore\">{rating}</div></a></div>"
    )
}

fn update_block(slug: &str) -> String {
    format!(
        "<div class=\"utao\"><div class=\"uta\"><div class=\"imgu\">\
         <a class=\"series\" href=\"https://site.example/manga/{slug}/\" title=\"Title {slug}\">\
         <img src=\"//img.example/{slug}.jpg\"></a></div>\
         <div class=\"luf\"><ul class=\"Manga\">\
         <li><a href=\"https://site.example/{slug}-chapter-2/\">Chapter 2</a><span>1 hour ago</span></li>\
         <li><a href=\"https://site.example/{slug}-chapter-1/\">Chapter 1</a><span>2 days ago</span></li>\
         <li><span>decoration</span></li>\
         </ul></div></div></div>"
    )
}

fn chapter_item(n: u32) -> String {
    format!(
        "<li data-num=\"{n}.0\"><div class=\"chbox\"><div class=\"eph-num\">\
         <a href=\"https://site.example/series-chapter-{n}/\">\
         <span class=\"chapternum\">Chapter {n}</span>\
         <span class=\"chapterdate\">January {n}, 2020</span></a></div>\
         <div class=\"dt\"><a class=\"dload\" href=\"https://dl.example/{n}.zip\">Download</a></div>\
         </div></li>"
    )
}

fn page(content: &str) -> Html {
    Html::parse_document(&format!(
        "<!DOCTYPE html><html><head><title>t</title></head><body>\
         <div id=\"sidebar\"><div class=\"bsx\"><a href=\"https://site.example/manga/side/\" title=\"Side\">\
         <img src=\"//img.example/side.jpg\"><div class=\"numscore\">1</div></a></div></div>\
         <div id=\"content\">{content}</div></body></html>"
    ))
}

fn metadata_block() -> String {
    "<div class=\"bixbox animefull\">\
     <img itemprop=\"image\" src=\"//img.example/cover.jpg\" title=\"Cover Title\">\
     <h1 itemprop=\"name\">Series Name</h1>\
     <meta itemprop=\"worstRating\" content=\"1\">\
     <meta itemprop=\"bestRating\" content=\"10\">\
     <meta itemprop=\"ratingCount\" content=\"1234\">\
     <div itemprop=\"ratingValue\" content=\"8.25\">8.25</div>\
     <div itemprop=\"description\">A story.</div>\
     <span itemprop=\"author\"><i itemprop=\"name\">An Author</i></span>\
     <time itemprop=\"datePublished\" datetime=\"2020-01-02T03:04:05+00:00\">x</time>\
     <time itemprop=\"dateModified\" datetime=\"2023-05-06T07:08:09+09:00\">y</time>\
     <div class=\"mgen\"><a rel=\"tag\" href=\"https://site.example/genres/action/\">Action</a>\
     <a rel=\"tag\" href=\"/relative\">Broken</a>\
     <a rel=\"tag\" href=\"https://site.example/genres/drama/\">Drama</a></div>\
     </div>"
        .to_string()
}

fn detail_page() -> Html {
    let items: String = (1..=5).map(chapter_item).collect();
    page(&format!(
        "{}<div id=\"chapterlist\"><ul>{}</ul></div>{}{}",
        metadata_block(),
        items,
        card("rel-1", "6.5"),
        card("rel-2", "7")
    ))
}

fn home_page() -> Html {
    let popular: String = ["hot-a", "hot-b", "hot-c"].iter().map(|s| card(s, "8.1")).collect();
    let isekai: String = ["isekai-a", "isekai-b"].iter().map(|s| card(s, "7.2")).collect();
    let romance: String = ["romance-a", "romance-b"].iter().map(|s| card(s, "6.3")).collect();
    let latest: String = ["new-a", "new-b", "new-c", "new-d"].iter().map(|s| update_block(s)).collect();
    page(&format!(
        "<div class=\"bixbox hothome\"><div class=\"listupd\">{popular}</div></div>\
         <div class=\"series-gen\"><ul class=\"nav-tabs\">\
         <li><a href=\"#series-1\">Isekai</a></li><li><a href=\"#series-2\">Romance</a></li></ul>\
         <div id=\"series-1\">{isekai}</div><div id=\"series-2\">{romance}</div></div>\
         <div class=\"bixbox\"><div class=\"listupd\">{latest}</div></div>"
    ))
}

fn chapter_page() -> Html {
    page(
        "<h1 class=\"entry-title\">Series <b>Chapter</b> 1</h1>\
         <div id=\"readerarea\"><noscript>\
         <img src=\"//img.example/first.jpg\" width=\"800\" height=\"1200.5\" decoding=\"async\" alt=\"page 1\">\
         <img src=\"//img.example/second.jpg\">\
         <img alt=\"no source\">\
         </noscript></div>\
         <div class=\"readingnav rnavbot\"></div>\
         <script>ts_reader.run({\"post_id\":42,\"prevUrl\":\"\",\"nextUrl\":\"https://site/chapter-2\",\
         \"sources\":[{\"source\":\"Server 1\",\"images\":[\"https://img.example/1.jpg\",\"//img.example/2.jpg\"]}]});</script>\
         <div class=\"bixbox\"><div class=\"bsx\"><a href=\"https://site.example/manga/rel/\" title=\"Rel\">\
         <img src=\"//img.example/rel.jpg\"><div class=\"numscore\">9</div></a></div></div>",
    )
}

fn decode(json: &str) -> ReaderConfig {
    let value: serde_json::Value = serde_json::from_str(json).unwrap();
    let text = |v: &serde_json::Value| v.as_str().unwrap().to_string();
    let sources = value["sources"]
        .as_array()
        .unwrap()
        .iter()
        .map(|s| SourceConfig {
            source: text(&s["source"]),
            images: s["images"].as_array().unwrap().iter().map(text).collect(),
        })
        .collect();
    ReaderConfig {
        post_id: value["post_id"].as_u64().unwrap() as usize,
        prev_url: text(&value["prevUrl"]),
        next_url: text(&value["nextUrl"]),
        sources,
    }
}

#[test]
fn content_selector_compiles() {
    assert!(get_content_selector().is_ok());
}

#[test]
fn content_region_is_required() {
    let html = Html::parse_document("<html><body><div id=\"other\"></div></body></html>");
    match get_content_element(&html) {
        Err(Error::ElementNotFound(d)) => assert_eq!(d, "#content"),
        _ => panic!("expected ElementNotFound"),
    }
    assert!(RawKumaSearchParser::init(&html).is_err());
    assert!(RawKumaMangaDetailParser::init(&html).is_err());
    assert!(RawKumaChapterParser::init(&html).is_err());
    assert!(RawKumaHomeParser::init(&html).is_err());
}

#[test]
fn home_fixture_counts() {
    let html = home_page();
    let parser = RawKumaHomeParser::init(&html).unwrap();
    let home = <RawKumaHomeData as FromHtmlParser<RawKumaHomeParser>>::from(parser).unwrap();
    assert_eq!(home.popular_title.len(), 3);
    assert_eq!(home.recommandation.len(), 2);
    assert_eq!(home.latest_update.len(), 4);
    let isekai = home.recommandation.get("Isekai").unwrap();
    assert_eq!(isekai.len(), 2);
    assert_eq!(isekai[0].title, "Title isekai-a");
    assert_eq!(isekai[1].url, "https://site.example/manga/isekai-b/");
    let romance = home.recommandation.get("Romance").unwrap();
    assert_eq!(romance.len(), 2);
    assert_eq!(romance[0].image, "https://img.example/romance-a.jpg");
    assert_eq!(home.popular_title[0].title, "Title hot-a");
    assert_eq!(home.popular_title[2].title, "Title hot-c");
    assert_eq!(home.popular_title[0].rating, Decimal { negative: false, digits: vec![8, 1], scale: 1 });
    assert_eq!(home.latest_update[3].title, "Title new-d");
    assert_eq!(home.latest_update[0].chapters.len(), 2);
    assert_eq!(home.latest_update[0].chapters[0].text, "Chapter 2");
    assert_eq!(home.latest_update[0].chapters[1].url, "https://site.example/new-a-chapter-1/");
}

#[test]
fn home_is_scoped_to_content() {
    let html = home_page();
    let listing = RawKumaHomeParser::get_div_listupd(&html).unwrap();
    assert_eq!(listing.len(), 2);
    let popular = RawKumaHomeParser::find_popular_today_elements(&html).unwrap();
    assert_eq!(popular.len(), 3);
    assert_eq!(RawKumaHomeParser::get_utao_divs(&html).unwrap().len(), 4);
    let themes = RawKumaHomeParser::get_recommendation_themes(&html).unwrap();
    assert_eq!(themes.len(), 2);
    assert_eq!(themes.entries[0].0, "Isekai");
    assert_eq!(themes.entries[1].0, "Romance");
}

#[test]
fn home_tab_with_malformed_href_is_selector_error() {
    let html = page(
        "<div class=\"listupd\"></div><div class=\"series-gen\"><ul class=\"nav-tabs\">\
         <li><a href=\"#[[\">Broken</a></li></ul></div>",
    );
    match RawKumaHomeParser::get_recommendation_themes(&html) {
        Err(Error::SelectorCompileError { pattern, .. }) => assert_eq!(pattern, "#[["),
        _ => panic!("expected SelectorCompileError"),
    }
}

#[test]
fn home_tab_without_target_is_element_not_found() {
    let html = page(
        "<div class=\"listupd\"></div><div class=\"series-gen\"><ul class=\"nav-tabs\">\
         <li><a href=\"#nowhere\">Lost</a></li></ul></div>",
    );
    match RawKumaHomeParser::get_recommendation_themes(&html) {
        Err(Error::ElementNotFound(d)) => assert_eq!(d, "#nowhere"),
        _ => panic!("expected ElementNotFound"),
    }
}

#[test]
fn home_without_popular_block_is_element_not_found() {
    let html = page("<p>nothing</p>");
    match RawKumaHomeParser::init(&html) {
        Err(Error::ElementNotFound(d)) => assert_eq!(d, "div[class=\"listupd\"]"),
        _ => panic!("expected ElementNotFound"),
    }
}

#[test]
fn manga_detail_fixture() {
    let html = detail_page();
    let parser = RawKumaMangaDetailParser::init(&html).unwrap();
    let detail =
        <RawKumaMangaDetailData as FromHtmlParser<RawKumaMangaDetailParser>>::from(parser).unwrap();
    assert_eq!(detail.chapterlist.chapters.len(), 5);
    for (i, chapter) in detail.chapterlist.chapters.iter().enumerate() {
        let n = (i + 1) as u8;
        assert_eq!(chapter.num, Decimal { negative: false, digits: vec![n, 0], scale: 1 });
        assert_eq!(chapter.chapter_num, format!("Chapter {n}"));
        assert_eq!(chapter.chapter_date, format!("January {n}, 2020"));
        assert_eq!(chapter.url, format!("https://site.example/series-chapter-{n}/"));
        assert_eq!(chapter.download_link, format!("https://dl.example/{n}.zip"));
    }
    let data = &detail.data;
    assert_eq!(data.name, "Series Name");
    assert_eq!(data.title, "Cover Title");
    assert_eq!(data.image, "https://img.example/cover.jpg");
    assert_eq!(data.worst_rating, 1);
    assert_eq!(data.best_rating, 10);
    assert_eq!(data.rating_count, 1234);
    assert_eq!(data.rating_value, Decimal { negative: false, digits: vec![8, 2, 5], scale: 2 });
    assert_eq!(data.description, Some("A story.".to_string()));
    assert_eq!(data.author, "An Author");
    assert_eq!(data.date_published.seconds, 1577934245);
    assert_eq!(data.date_published.offset_seconds, 0);
    assert_eq!(data.date_modified.seconds, 1683324489);
    assert_eq!(data.date_modified.offset_seconds, 32400);
    assert_eq!(data.genres.len(), 2);
    assert_eq!(data.genres[0].name, "Action");
    assert_eq!(data.genres[1].url, "https://site.example/genres/drama/");
    assert_eq!(detail.related_series.len(), 2);
    assert_eq!(detail.related_series[1].title, "Title rel-2");
}

#[test]
fn manga_detail_without_metadata_is_element_not_found() {
    let html = page("<div id=\"chapterlist\"></div>");
    let parser = RawKumaMangaDetailParser::init(&html).unwrap();
    match parser.get_bixbox_data() {
        Err(Error::ElementNotFound(d)) => assert_eq!(d, "div.bixbox.animefull"),
        _ => panic!("expected ElementNotFound"),
    }
    match <RawKumaMangaDetailData as FromHtmlParser<RawKumaMangaDetailParser>>::from(parser) {
        Err(Error::ElementNotFound(d)) => assert_eq!(d, "div.bixbox.animefull"),
        _ => panic!("expected ElementNotFound"),
    }
}

#[test]
fn metadata_field_failures() {
    let html = page(&metadata_block().replace("content=\"10\"", "content=\"ten\""));
    let parser = RawKumaMangaDetailParser::init(&html).unwrap();
    match parser.get_bixbox_data() {
        Err(Error::ValueParseError { raw, target }) => {
            assert_eq!(raw, "ten");
            assert_eq!(target, "u16");
        }
        _ => panic!("expected ValueParseError"),
    }
    let html = page(&metadata_block().replace(" title=\"Cover Title\"", ""));
    let parser = RawKumaMangaDetailParser::init(&html).unwrap();
    match parser.get_bixbox_data() {
        Err(Error::AttributeNotFound { name, element }) => {
            assert_eq!(name, "title");
            assert_eq!(element, "img[itemprop=\"image\"]");
        }
        _ => panic!("expected AttributeNotFound"),
    }
    let html = page(&metadata_block().replace("Series Name", ""));
    let parser = RawKumaMangaDetailParser::init(&html).unwrap();
    assert!(matches!(parser.get_bixbox_data(), Err(Error::TextContentNotFound)));
}

#[test]
fn description_is_optional() {
    let html = page(&metadata_block().replace("A story.", ""));
    let root = get_content_element(&html).unwrap();
    assert_eq!(BixboxData::get_description_element_data(&root).unwrap(), None);
    let html = page(&metadata_block().replace("itemprop=\"description\"", "itemprop=\"other\""));
    let root = get_content_element(&html).unwrap();
    assert_eq!(BixboxData::get_description_element_data(&root).unwrap(), None);
    match BixboxData::get_description_element(&root) {
        Err(Error::ElementNotFound(d)) => assert_eq!(d, "div[itemprop=\"description\"]"),
        _ => panic!("expected ElementNotFound"),
    }
}

#[test]
fn chapter_fixture_reader_configuration() {
    let html = chapter_page();
    let parser = RawKumaChapterParser::init(&html).unwrap();
    let json = parser.get_ts_reader_script().unwrap();
    assert!(json.starts_with("{\"post_id\":42"));
    assert!(json.ends_with("}]}"));
    let parser = parser.with_reader_config(decode(&json));
    let chapter =
        <RawKumaChapterData as FromHtmlParser<RawKumaChapterParser>>::from(parser).unwrap();
    assert_eq!(chapter.title, "Series Chapter 1");
    assert_eq!(chapter.sources.post_id, 42);
    assert_eq!(chapter.sources.prev_url, None);
    assert_eq!(chapter.sources.next_url, Some("https://site/chapter-2".to_string()));
    assert_eq!(chapter.sources.sources.len(), 1);
    assert_eq!(chapter.sources.sources[0].source, "Server 1");
    assert_eq!(
        chapter.sources.sources[0].images,
        vec!["https://img.example/1.jpg".to_string(), "https://img.example/2.jpg".to_string()]
    );
    assert_eq!(chapter.related_mangas.len(), 1);
}

#[test]
fn chapter_without_supplied_configuration_is_incomplete() {
    let html = chapter_page();
    let parser = RawKumaChapterParser::init(&html).unwrap();
    match <RawKumaChapterData as FromHtmlParser<RawKumaChapterParser>>::from(parser) {
        Err(Error::IncompleteRecord(BuilderError::UninitializedField(field))) => {
            assert_eq!(field, "sources")
        }
        _ => panic!("expected IncompleteRecord"),
    }
}

#[test]
fn reader_configuration_rejects_bad_address() {
    let config = ReaderConfig {
        post_id: 1,
        prev_url: String::new(),
        next_url: String::new(),
        sources: vec![
            SourceConfig { source: "a".to_string(), images: vec!["https://img.example/1.jpg".to_string()] },
            SourceConfig {
                source: "b".to_string(),
                images: vec!["//img.example/2.jpg".to_string(), "not a url".to_string(), "also bad".to_string()],
            },
        ],
    };
    match TSReaderArgs::from_config(&config) {
        Err(Error::ValueParseError { raw, target }) => {
            assert_eq!(raw, "not a url");
            assert_eq!(target, "url");
        }
        _ => panic!("expected ValueParseError"),
    }
    let config = ReaderConfig { post_id: 1, prev_url: "bad".to_string(), next_url: "worse".to_string(), sources: vec![] };
    match TSReaderArgs::from_config(&config) {
        Err(Error::ValueParseError { raw, .. }) => assert_eq!(raw, "bad"),
        _ => panic!("expected ValueParseError"),
    }
}

#[test]
fn chapter_without_reader_script_is_element_not_found() {
    let html = page("<h1>Title</h1>");
    let parser = RawKumaChapterParser::init(&html).unwrap();
    match parser.get_ts_reader_script() {
        Err(Error::ElementNotFound(d)) => assert_eq!(d, "div.readingnav.rnavbot + script"),
        _ => panic!("expected ElementNotFound"),
    }
    assert_eq!(parser.get_entry_title().unwrap(), "Title");
    let html = page("<p>no heading</p>");
    let parser = RawKumaChapterParser::init(&html).unwrap();
    match parser.get_entry_title() {
        Err(Error::ElementNotFound(d)) => assert_eq!(d, "h1"),
        _ => panic!("expected ElementNotFound"),
    }
}

#[test]
fn reader_area_images_are_read_from_escaped_block() {
    let html = chapter_page();
    let parser = RawKumaChapterParser::init(&html).unwrap();
    let area: ReaderArea = parser.get_reader_area_data().unwrap();
    assert_eq!(area.images.len(), 2);
    let first = &area.images[0];
    assert_eq!(first.url, "https://img.example/first.jpg");
    assert_eq!(first.width, Decimal { negative: false, digits: vec![8, 0, 0], scale: 0 });
    assert_eq!(first.height, Decimal { negative: false, digits: vec![1, 2, 0, 0, 5], scale: 1 });
    assert_eq!(first.decoding, "async");
    assert_eq!(first.alt, "page 1");
    let second = &area.images[1];
    assert_eq!(second.url, "https://img.example/second.jpg");
    assert_eq!(second.width, Decimal::zero());
    assert_eq!(second.height, Decimal::zero());
    assert_eq!(second.decoding, "");
    assert_eq!(second.alt, "");
}

#[test]
fn reader_image_failures() {
    let html = Html::parse_fragment("<img width=\"wide\" src=\"//img.example/a.jpg\"><img alt=\"x\">");
    let images = ReaderAreaImage::get_reader_area_images_element_from_html(&html).unwrap();
    assert_eq!(images.len(), 2);
    match ReaderAreaImage::from_element_ref(&images[0]) {
        Err(Error::ValueParseError { raw, target }) => {
            assert_eq!(raw, "wide");
            assert_eq!(target, "float");
        }
        _ => panic!("expected ValueParseError"),
    }
    match ReaderAreaImage::from_element_ref(&images[1]) {
        Err(Error::AttributeNotFound { name, element }) => {
            assert_eq!(name, "src");
            assert_eq!(element, "img");
        }
        _ => panic!("expected AttributeNotFound"),
    }
    let root = html.root_element();
    assert_eq!(ReaderAreaImage::get_reader_area_images_element(&root).unwrap().len(), 2);
}

#[test]
fn search_fixture_without_results_is_empty() {
    let html = page("<div class=\"listupd\"><p>No results</p></div>");
    let parser = RawKumaSearchParser::init(&html).unwrap();
    let search = <RawKumaSearch as FromHtmlParser<RawKumaSearchParser>>::from(parser).unwrap();
    assert_eq!(search.result.len(), 0);
}

#[test]
fn search_results_ignore_cards_outside_content() {
    let html = page(&format!("{}{}", card("a", "1.5"), card("b", "2")));
    let parser = RawKumaSearchParser::init(&html).unwrap();
    let found = parser.get_bsx_results().unwrap();
    assert_eq!(found.len(), 2);
    assert_eq!(found[0].title, "Title a");
    assert_eq!(found[1].title, "Title b");
}

#[test]
fn malformed_rating_is_skipped_or_surfaced() {
    let html = page(&format!("{}{}{}{}", card("a", "4.5"), card("b", "N/A"), card("c", "3"), card("d", "bad")));
    let content = get_content_element(&html).unwrap();
    let elements = BsxTitleData::get_bsx_elements(&content).unwrap();
    assert_eq!(elements.len(), 4);
    let kept = BsxTitleData::from_vec_element(&elements).unwrap();
    assert_eq!(kept.len(), 2);
    assert_eq!(kept[0].title, "Title a");
    assert_eq!(kept[1].title, "Title c");
    match BsxTitleData::from_vec_element_strict(&elements) {
        Err(Error::ValueParseError { raw, target }) => {
            assert_eq!(raw, "N/A");
            assert_eq!(target, "float");
        }
        _ => panic!("expected ValueParseError"),
    }
    let good = BsxTitleData::from_vec_element_strict(&elements[..1].to_vec()).unwrap();
    assert_eq!(good.len(), 1);
}

#[test]
fn tolerant_skip_keeps_survivors_in_order() {
    let cards: String = (0..7)
        .map(|i| card(&format!("s{i}"), if i % 3 == 1 { "N/A" } else { "5" }))
        .collect();
    let html = page(&cards);
    let content = get_content_element(&html).unwrap();
    let elements = BsxTitleData::get_bsx_elements(&content).unwrap();
    let kept = BsxTitleData::from_vec_element(&elements).unwrap();
    let titles: Vec<&str> = kept.iter().map(|c| c.title.as_str()).collect();
    assert_eq!(titles, vec!["Title s0", "Title s2", "Title s3", "Title s5", "Title s6"]);
}

#[test]
fn card_field_failures() {
    let html = Html::parse_fragment(
        "<div class=\"bsx\"><a href=\"https://site.example/x/\"><img src=\"//i/x.jpg\"><div class=\"numscore\">1</div></a></div>",
    );
    let root = html.root_element();
    let cards = BsxTitleData::get_bsx_elements(&root).unwrap();
    match BsxTitleData::from_element_ref(&cards[0]) {
        Err(Error::AttributeNotFound { name, element }) => {
            assert_eq!(name, "title");
            assert_eq!(element, "a");
        }
        _ => panic!("expected AttributeNotFound"),
    }
    let html = Html::parse_fragment("<div class=\"bsx\"><a href=\"https://site.example/x/\" title=\"X\"><div class=\"numscore\">1</div></a></div>");
    let root = html.root_element();
    let cards = BsxTitleData::get_bsx_elements(&root).unwrap();
    match BsxTitleData::get_img_url(&cards[0]) {
        Err(Error::ElementNotFound(d)) => assert_eq!(d, "img"),
        _ => panic!("expected ElementNotFound"),
    }
    assert_eq!(BsxTitleData::get_title_data(&cards[0]).unwrap().url, "https://site.example/x/");
    assert_eq!(BsxTitleData::get_rating(&cards[0]).unwrap(), Decimal { negative: false, digits: vec![1], scale: 0 });
}

#[test]
fn chapter_list_policies() {
    let broken = chapter_item(2).replace("https://dl.example/2.zip", "nowhere");
    let html = page(&format!(
        "<div id=\"chapterlist\"><ul>{}{}{}</ul></div>",
        chapter_item(1),
        broken,
        chapter_item(3)
    ));
    let content = get_content_element(&html).unwrap();
    let container = ChapterList::get_chapter_list_element(&content).unwrap();
    let tolerant = ChapterList::from_element_ref(&container).unwrap();
    assert_eq!(tolerant.chapters.len(), 2);
    assert_eq!(tolerant.chapters[1].chapter_num, "Chapter 3");
    match ChapterList::from_element_ref_strict(&container) {
        Err(Error::ValueParseError { raw, target }) => {
            assert_eq!(raw, "nowhere");
            assert_eq!(target, "url");
        }
        _ => panic!("expected ValueParseError"),
    }
}

#[test]
fn chapter_item_parts() {
    let html = Html::parse_fragment(&format!("<ul>{}<li><div class=\"eph-num\"><a href=\"https://s.example/c/\"><span class=\"chapternum\"></span></a></div></li><li><div class=\"eph-num\"></div></li><li><div class=\"eph-num\"><a>no address</a></div></li></ul>", chapter_item(4)));
    let root = html.root_element();
    let items = rawkuma_scraper::dom::select_all(&root, "li").unwrap();
    assert_eq!(Chapter::get_chapternum_data(&items[0]).unwrap(), "Chapter 4");
    assert_eq!(Chapter::get_a_ephnum_data(&items[0]).unwrap(), "https://site.example/series-chapter-4/");
    match Chapter::get_a_ephnum_data(&items[3]) {
        Err(Error::AttributeNotFound { name, element }) => {
            assert_eq!(name, "href");
            assert_eq!(element, "a > .eph-num");
        }
        _ => panic!("expected AttributeNotFound"),
    }
    assert_eq!(Chapter::get_data_num(&items[0]).unwrap(), Decimal { negative: false, digits: vec![4, 0], scale: 1 });
    assert_eq!(Chapter::get_chapternum_data(&items[1]).unwrap(), "");
    assert_eq!(Chapter::get_chapterdate_data(&items[1]).unwrap(), "");
    match Chapter::get_chapterdate_element(&items[1]) {
        Err(Error::ElementNotFound(d)) => assert_eq!(d, "div.eph-num a .chapterdate"),
        _ => panic!("expected ElementNotFound"),
    }
    match Chapter::get_data_num(&items[1]) {
        Err(Error::AttributeNotFound { name, element }) => {
            assert_eq!(name, "data-num");
            assert!(element.starts_with("<li>"));
            assert!(element.ends_with("</li>"));
        }
        _ => panic!("expected AttributeNotFound"),
    }
    match Chapter::get_a_ephnum_element(&items[2]) {
        Err(Error::ElementNotFound(d)) => assert_eq!(d, "div.eph-num a"),
        _ => panic!("expected ElementNotFound"),
    }
    match Chapter::get_dload_data(&items[1]) {
        Err(Error::ElementNotFound(d)) => assert_eq!(d, "a.dload"),
        _ => panic!("expected ElementNotFound"),
    }
}

#[test]
fn genre_tags_skip_broken_links() {
    let html = page(&metadata_block());
    let content = get_content_element(&html).unwrap();
    assert_eq!(MgenTag::get_tag_elements(&content).unwrap().len(), 3);
    let tags = MgenTag::get_tags_elements_data(&content).unwrap();
    assert_eq!(tags.len(), 2);
    assert_eq!(tags[0].url, "https://site.example/genres/action/");
    assert_eq!(tags[1].name, "Drama");
    let html = page("<p></p>");
    let content = get_content_element(&html).unwrap();
    match MgenTag::get_tags_elements_data(&content) {
        Err(Error::ElementNotFound(d)) => assert_eq!(d, ".mgen"),
        _ => panic!("expected ElementNotFound"),
    }
}

#[test]
fn latest_update_block_parts() {
    let html = Html::parse_fragment(&update_block("x"));
    let root = html.root_element();
    let block = rawkuma_scraper::dom::select_first(&root, "div[class=\"utao\"]", "utao").unwrap();
    let data = UtaoTitleData::from_element_ref(&block).unwrap();
    assert_eq!(data.title, "Title x");
    assert_eq!(data.url, "https://site.example/manga/x/");
    assert_eq!(data.image, "https://img.example/x.jpg");
    assert_eq!(data.chapters.len(), 2);
    let items = UtaoTitleData::get_chapters_elements(&block).unwrap();
    assert_eq!(items.len(), 3);
    match UtaoTitleChapter::from_element_ref(&items[2]) {
        Err(Error::ElementNotFound(d)) => assert_eq!(d, "a"),
        _ => panic!("expected ElementNotFound"),
    }
    let html = Html::parse_fragment(
        "<div class=\"utao\"><div class=\"imgu\"><a class=\"series\" href=\"https://s.example/x/\" title=\"X\">\
         <img alt=\"no source\"></a></div><ul class=\"Manga\"></ul></div>",
    );
    let root = html.root_element();
    let block = rawkuma_scraper::dom::select_first(&root, "div[class=\"utao\"]", "utao").unwrap();
    match UtaoTitleData::from_element_ref(&block) {
        Err(Error::AttributeNotFound { name, element }) => {
            assert_eq!(name, "src");
            assert_eq!(element, "image");
        }
        _ => panic!("expected AttributeNotFound"),
    }
    let html = Html::parse_fragment("<div class=\"utao\"><div class=\"imgu\"></div></div>");
    let root = html.root_element();
    let block = rawkuma_scraper::dom::select_first(&root, "div[class=\"utao\"]", "utao").unwrap();
    match UtaoTitleData::from_element_ref(&block) {
        Err(Error::ElementNotFound(d)) => assert_eq!(d, "img"),
        _ => panic!("expected ElementNotFound"),
    }
}

#[test]
fn assembly_twice_gives_same_record() {
    let html = detail_page();
    let one = <RawKumaMangaDetailData as FromHtmlParser<RawKumaMangaDetailParser>>::from(
        RawKumaMangaDetailParser::init(&html).unwrap(),
    )
    .unwrap();
    let two = <RawKumaMangaDetailData as FromHtmlParser<RawKumaMangaDetailParser>>::from(
        RawKumaMangaDetailParser::init(&html).unwrap(),
    )
    .unwrap();
    assert_eq!(format!("{:?}", one), format!("{:?}", two));
    let html = home_page();
    let one = <RawKumaHomeData as FromHtmlParser<RawKumaHomeParser>>::from(
        RawKumaHomeParser::init(&html).unwrap(),
    )
    .unwrap();
    let two = <RawKumaHomeData as FromHtmlParser<RawKumaHomeParser>>::from(
        RawKumaHomeParser::init(&html).unwrap(),
    )
    .unwrap();
    assert_eq!(format!("{:?}", one), format!("{:?}", two));
}

#[test]
fn chapter_images_in_both_shapes() {
    let html = chapter_page();
    let parser = RawKumaChapterParser::init(&html).unwrap();
    let json = parser.get_ts_reader_script().unwrap();
    let area = parser.get_reader_area_data().unwrap();
    let parser = parser.with_reader_config(decode(&json));
    let chapter =
        <RawKumaChapterData as FromHtmlParser<RawKumaChapterParser>>::from(parser).unwrap();
    let served = chapter.images();
    assert_eq!(served.len(), 2);
    match &served[1] {
        ReaderImage::Served { index, server, url } => {
            assert_eq!(*index, 1);
            assert_eq!(server, "Server 1");
            assert_eq!(url, "https://img.example/2.jpg");
        }
        _ => panic!("expected a served image"),
    }
    let decoded = ReaderImage::decoded(area);
    assert_eq!(decoded.len(), 2);
    match &decoded[0] {
        ReaderImage::Decoded(image) => assert_eq!(image.url, "https://img.example/first.jpg"),
        _ => panic!("expected a decoded image"),
    }
    match &decoded[1] {
        ReaderImage::Decoded(image) => assert_eq!(image.url, "https://img.example/second.jpg"),
        _ => panic!("expected a decoded image"),
    }
}

#[test]
fn served_images_are_numbered_within_each_server() {
    let args = TSReaderArgs {
        post_id: 7,
        prev_url: None,
        next_url: None,
        sources: vec![
            ImagesSources { source: "a".to_string(), images: vec!["https://a/1".to_string(), "https://a/2".to_string()] },
            ImagesSources { source: "empty".to_string(), images: vec![] },
            ImagesSources { source: "b".to_string(), images: vec!["https://b/1".to_string()] },
        ],
    };
    let listed: Vec<(u32, String, String)> = ReaderImage::served(&args)
        .into_iter()
        .map(|image| match image {
            ReaderImage::Served { index, server, url } => (index, server, url),
            ReaderImage::Decoded(_) => panic!("expected a served image"),
        })
        .collect();
    assert_eq!(
        listed,
        vec![
            (0, "a".to_string(), "https://a/1".to_string()),
            (1, "a".to_string(), "https://a/2".to_string()),
            (0, "b".to_string(), "https://b/1".to_string()),
        ]
    );
}

#[test]
fn home_label_that_comes_twice_keeps_its_place() {
    let html = page(&format!(
        "<div class=\"listupd\"></div><div class=\"series-gen\"><ul class=\"nav-tabs\">\
         <li><a href=\"#one\">Isekai</a></li><li><a href=\"#two\">Drama</a></li><li><a href=\"#three\">Isekai</a></li></ul>\
         <div id=\"one\">{}</div><div id=\"two\">{}</div><div id=\"three\">{}{}</div></div>",
        card("a", "1"),
        card("b", "2"),
        card("c", "3"),
        card("d", "4")
    ));
    let parser = RawKumaHomeParser::init(&html).unwrap();
    let home = <RawKumaHomeData as FromHtmlParser<RawKumaHomeParser>>::from(parser).unwrap();
    assert_eq!(home.recommandation.len(), 2);
    assert_eq!(home.recommandation.entries[0].0, "Isekai");
    assert_eq!(home.recommandation.entries[1].0, "Drama");
    let isekai = home.recommandation.get("Isekai").unwrap();
    assert_eq!(isekai.len(), 2);
    assert_eq!(isekai[0].title, "Title c");
    assert_eq!(home.popular_title.len(), 0);
    assert_eq!(home.latest_update.len(), 0);
}

#[test]
fn error_messages() {
    assert_eq!(
        Error::ElementNotFound("#content".to_string()).message(),
        "Element '#content' not found on the page"
    );
    assert_eq!(
        Error::AttributeNotFound { name: "src".to_string(), element: "img".to_string() }.message(),
        "Attribute 'src' not found on the element img"
    );
    assert_eq!(Error::TextContentNotFound.message(), "Text content is not found");
    assert_eq!(
        Error::ValueParseError { raw: "N/A".to_string(), target: "float".to_string() }.message(),
        "'N/A' is not a value of type float"
    );
    assert_eq!(
        Error::SelectorCompileError { pattern: "div[".to_string(), cause: "bad".to_string() }.message(),
        "Selector 'div[' does not compile: bad"
    );
    assert_eq!(
        Error::IncompleteRecord(BuilderError::UninitializedField("title".to_string())).message(),
        "Uninitialized field title"
    );
    assert_eq!(
        BuilderError::ValidationError("too long".to_string()).message(),
        "Validation error! Reason : too long"
    );
}

#[test]
fn fixed_selectors_compile() {
    assert!(Chapter::get_a_selector().is_ok());
    assert!(Chapter::get_chapternum_selector().is_ok());
    assert!(Chapter::get_chapterdate_selector().is_ok());
    assert!(Chapter::get_data_num_selector().is_ok());
    assert!(Chapter::get_eph_num_selector().is_ok());
    assert!(Chapter::get_dload_a_selector().is_ok());
    assert!(ChapterList::get_chapter_list_selector().is_ok());
    assert!(BsxTitleData::div_bsx_selector().is_ok());
    assert!(BsxTitleData::get_rating_selector().is_ok());
    assert!(MgenTag::get_mgen_selector().is_ok());
    assert!(MgenTag::get_tag_selector().is_ok());
    assert!(UtaoTitleChapter::get_a_selector().is_ok());
    assert!(UtaoTitleData::div_imagu_selector().is_ok());
    assert!(UtaoTitleData::get_img_selector().is_ok());
    assert!(UtaoTitleData::get_a_series_selector().is_ok());
    assert!(UtaoTitleData::get_ul_manga_selector().is_ok());
    assert!(UtaoTitleData::get_li_selector().is_ok());
    assert!(ReaderArea::get_reader_area_selector().is_ok());
    assert!(ReaderArea::get_noscript_selector().is_ok());
    assert!(ReaderAreaImage::get_reader_area_image_selector().is_ok());
    assert!(TSReaderArgs::get_ts_reader_script_selector().is_ok());
    assert!(BixboxData::get_bix_box_anime_full_selector().is_ok());
    assert!(BixboxData::get_image_selector().is_ok());
    assert!(BixboxData::get_name_selector().is_ok());
    assert!(BixboxData::get_worst_rating_selector().is_ok());
    assert!(BixboxData::get_best_rating_selector().is_ok());
    assert!(BixboxData::get_rating_count_selector().is_ok());
    assert!(BixboxData::get_rating_value_selector().is_ok());
    assert!(BixboxData::get_author_selector().is_ok());
    assert!(BixboxData::get_author_i_selector_selector().is_ok());
    assert!(BixboxData::get_description_selector().is_ok());
    assert!(BixboxData::get_date_modified_selector().is_ok());
    assert!(BixboxData::get_date_published_selector().is_ok());
    assert!(RawKumaHomeParser::div_listupd_selector().is_ok());
    assert!(RawKumaHomeParser::div_bixbox_hothome_selector().is_ok());
    assert!(RawKumaHomeParser::div_series_gen_selector().is_ok());
    assert!(RawKumaHomeParser::div_nav_tabs_selector().is_ok());
    assert!(RawKumaHomeParser::div_utao_selector().is_ok());
}
