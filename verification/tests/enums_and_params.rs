use rawkuma_scraper::enums::manga::{Genre, Order, Status, Type};
use rawkuma_scraper::error::BuilderError;
use rawkuma_scraper::types::bsx::BsxTitleDataBuilder;
use rawkuma_scraper::types::categories::CategoryMap;
use rawkuma_scraper::types::genre_tag::MgenTagBuilder;
use rawkuma_scraper::types::{HomeParameters, MangaListParameter, ToUrlParam};
use rawkuma_scraper::scalar::Decimal;

#[test]
fn keywords_of_filters() {
    assert_eq!(Genre::All.as_str(), "");
    assert_eq!(Genre::SciFi.as_str(), "sci-fi");
    assert_eq!(Genre::SliceOfLife.as_str(), "slice-of-life");
    assert_eq!(Genre::GenderBender.as_str(), "gender-bende");
    assert_eq!(Order::AZ.as_str(), "title");
    assert_eq!(Order::Added.as_str(), "latest");
    assert_eq!(Order::Default.as_str(), "");
    assert_eq!(Status::Hiatus.as_str(), "hiatus");
    assert_eq!(Type::Manhwa.as_str(), "manhwa");
}

#[test]
fn filters_from_keywords() {
    assert_eq!(Genre::from("sci-fi"), Genre::SciFi);
    assert_eq!(Genre::from("unknown"), Genre::All);
    assert_eq!(Genre::from(""), Genre::All);
    assert_eq!(Order::from("titlereverse"), Order::ZA);
    assert_eq!(Order::from("nothing"), Order::Default);
    assert_eq!(Status::from("completed"), Status::Completed);
    assert_eq!(Status::from("COMPLETED"), Status::All);
    assert_eq!(Type::from("novel"), Type::Novel);
    assert_eq!(Type::from("x"), Type::All);
}

#[test]
fn keyword_round_trip() {
    let genres = [Genre::Action, Genre::NA, Genre::Yuri, Genre::MartialArts, Genre::ShounenAi];
    for g in genres {
        assert_eq!(Genre::from_keyword(g.as_str()), g);
    }
    for o in [Order::Default, Order::AZ, Order::ZA, Order::Update, Order::Added, Order::Popular] {
        assert_eq!(Order::from_keyword(o.as_str()), o);
    }
    for s in [Status::All, Status::Ongoing, Status::Completed, Status::Hiatus] {
        assert_eq!(Status::from_keyword(s.as_str()), s);
    }
    for t in [Type::All, Type::Manga, Type::Manhwa, Type::Manhua, Type::Comic, Type::Novel] {
        assert_eq!(Type::from_keyword(t.as_str()), t);
    }
}

#[test]
fn filter_defaults() {
    assert_eq!(Genre::default(), Genre::All);
    assert_eq!(Order::default(), Order::Default);
    assert_eq!(Status::default(), Status::All);
    assert_eq!(Type::default(), Type::All);
}

#[test]
fn home_parameters_to_url() {
    assert_eq!(HomeParameters::default().page, 1);
    let p = HomeParameters { page: 12 };
    assert_eq!(p.to_url_param(), vec![("page".to_string(), "12".to_string())]);
}

#[test]
fn manga_list_parameters_to_url() {
    let d = MangaListParameter::default();
    assert_eq!(
        d.to_url_param(),
        vec![
            ("page".to_string(), "1".to_string()),
            ("status".to_string(), "".to_string()),
            ("order".to_string(), "".to_string()),
            ("type".to_string(), "".to_string()),
        ]
    );
    let p = MangaListParameter {
        page: 3,
        status: Status::Ongoing,
        genre: vec![Genre::Action, Genre::SciFi],
        order: Order::Popular,
        type_: Type::Manga,
    };
    assert_eq!(
        p.to_url_param(),
        vec![
            ("page".to_string(), "3".to_string()),
            ("status".to_string(), "ongoing".to_string()),
            ("genre[]".to_string(), "action".to_string()),
            ("genre[]".to_string(), "sci-fi".to_string()),
            ("order".to_string(), "popular".to_string()),
            ("type".to_string(), "manga".to_string()),
        ]
    );
}

#[test]
fn category_map_sets_and_replaces() {
    let mut m: CategoryMap<u32> = CategoryMap::new();
    assert_eq!(m.len(), 0);
    assert_eq!(m.get("Isekai"), None);
    m.insert("Isekai".to_string(), 1);
    m.insert("Romance".to_string(), 2);
    assert_eq!(m.len(), 2);
    m.insert("Isekai".to_string(), 3);
    assert_eq!(m.len(), 2);
    assert_eq!(m.get("Isekai"), Some(&3));
    assert_eq!(m.get("Romance"), Some(&2));
    assert_eq!(m.position("Isekai"), Some(0));
    assert_eq!(m.position("Drama"), None);
    assert_eq!(m.entries[0].0, "Isekai");
    assert_eq!(m.entries[1].0, "Romance");
}

#[test]
fn builder_names_first_missing_field() {
    match MgenTagBuilder::default().name("Action".to_string()).build() {
        Err(BuilderError::UninitializedField(field)) => assert_eq!(field, "url"),
        _ => panic!("expected UninitializedField"),
    }
    match BsxTitleDataBuilder::default()
        .rating(Decimal::zero())
        .url("https://site/".to_string())
        .build()
    {
        Err(BuilderError::UninitializedField(field)) => assert_eq!(field, "title"),
        _ => panic!("expected UninitializedField"),
    }
    match BsxTitleDataBuilder::default()
        .title("T".to_string())
        .url("https://site/".to_string())
        .rating(Decimal::zero())
        .build()
    {
        Err(BuilderError::UninitializedField(field)) => assert_eq!(field, "image"),
        _ => panic!("expected UninitializedField"),
    }
}

#[test]
fn builder_yields_record_when_complete() {
    let tag = MgenTagBuilder::default()
        .url("https://site/genres/action/".to_string())
        .name("Action".to_string())
        .build()
        .unwrap();
    assert_eq!(tag.url, "https://site/genres/action/");
    assert_eq!(tag.name, "Action");
}
