use book_providers::dom::SiblingNode;
use book_providers::extract::{join_trimmed, tail_text_of};
use book_providers::google_books::GoogleBooksService;
use book_providers::labels::{
    apply_label, author_names_from, classify_label, is_author_link, InfoLabel, LabelKind,
    LinkCandidate, MAX_AUTHOR_NAME_LEN,
};
use book_providers::models::DoubanBook;
use book_providers::page::{
    apply_labels, first_filled_of, read_candidates, read_labels, read_page, read_title,
    title_selector, DetailPage, ImageFacts, SearchCandidate, MIN_SUMMARY_LEN, TITLE_WAYS,
};

fn service() -> GoogleBooksService {
    GoogleBooksService::new(0)
}

fn text(s: &str) -> SiblingNode {
    SiblingNode::Text(s.to_string())
}

fn label(name: &str, siblings: Vec<SiblingNode>) -> InfoLabel {
    InfoLabel { runs: vec![name.to_string()], siblings, links: Vec::new() }
}

fn link(href: Option<&str>, name: &str) -> LinkCandidate {
    LinkCandidate { href: href.map(|h| h.to_string()), runs: vec![name.to_string()] }
}

fn blank(id: &str) -> DoubanBook {
    DoubanBook::blank(id.to_string())
}

#[test]
fn blank_entry_holds_only_the_identifier() {
    let book = blank("7");
    assert_eq!(book.id, "7");
    assert_eq!(book.title, "");
    assert!(book.image.is_none() && book.author.is_none() && book.publisher.is_none());
    assert!(book.pubdate.is_none() && book.pages.is_none() && book.summary.is_none());
}

#[test]
fn element_text_joins_trimmed_runs() {
    assert_eq!(join_trimmed(&Vec::new()), "");
    assert_eq!(
        join_trimmed(&vec![" 作者 ".to_string(), "\n".to_string(), ": ".to_string()]),
        "作者:"
    );
    assert_eq!(join_trimmed(&vec!["a b".to_string(), " c".to_string()]), "a bc");
}

#[test]
fn tail_text_skips_the_separator_and_is_trimmed() {
    assert_eq!(
        tail_text_of(&vec![text(" | "), text("  重庆出版社 \n")]).as_deref(),
        Some("重庆出版社")
    );
    assert_eq!(tail_text_of(&vec![text("|"), text("x")]).as_deref(), Some("x"));
    assert_eq!(
        tail_text_of(&vec![text("\n  "), text("|"), SiblingNode::Other, text(" 2008-1 ")]).as_deref(),
        Some("2008-1")
    );
}

#[test]
fn tail_text_takes_the_first_text_that_is_there() {
    assert_eq!(tail_text_of(&Vec::new()), None);
    assert_eq!(tail_text_of(&vec![text("  ")]), None);
    assert_eq!(tail_text_of(&vec![text("|"), text(" | ")]), None);
    assert_eq!(tail_text_of(&vec![text(" 406 "), text("x")]).as_deref(), Some("406"));
    assert_eq!(tail_text_of(&vec![text("||")]).as_deref(), Some("||"));
    assert_eq!(tail_text_of(&vec![text(": 2008")]).as_deref(), Some(": 2008"));
}

#[test]
fn tail_text_stops_at_the_first_element() {
    let filled = SiblingNode::Element(Some(" 重庆出版社 ".to_string()));
    let hollow = SiblingNode::Element(None);
    let blank = SiblingNode::Element(Some("  ".to_string()));
    assert_eq!(tail_text_of(&vec![text(" "), filled.clone()]).as_deref(), Some("重庆出版社"));
    assert_eq!(tail_text_of(&vec![hollow, text("later")]), None);
    assert_eq!(tail_text_of(&vec![blank, text("later")]), None);
    assert_eq!(
        tail_text_of(&vec![SiblingNode::Element(Some("|".to_string()))]).as_deref(),
        Some("|")
    );
    assert_eq!(tail_text_of(&vec![SiblingNode::Other, filled]).as_deref(), Some("重庆出版社"));
}

#[test]
fn labels_are_told_by_their_first_word() {
    assert_eq!(classify_label("作者"), LabelKind::Author);
    assert_eq!(classify_label("作者:"), LabelKind::Author);
    assert_eq!(classify_label("出版社:"), LabelKind::Publisher);
    assert_eq!(classify_label("副标题:"), LabelKind::Subtitle);
    assert_eq!(classify_label("出版年:"), LabelKind::PublishDate);
    assert_eq!(classify_label("页数:"), LabelKind::Pages);
    assert_eq!(classify_label("ISBN:"), LabelKind::Other);
    assert_eq!(classify_label("出版"), LabelKind::Other);
    assert_eq!(classify_label(""), LabelKind::Other);
    assert_eq!(classify_label("原作者"), LabelKind::Other);
}

#[test]
fn author_links_lead_to_authors_or_searches() {
    assert!(is_author_link("/author/4502621/"));
    assert!(is_author_link("https://book.douban.com/search/刘慈欣"));
    assert!(is_author_link("/search?text=x"));
    assert!(!is_author_link(""));
    assert!(!is_author_link("/series/12"));
    assert!(!is_author_link("/autho/r"));
}

#[test]
fn authors_are_filtered_by_target_and_length() {
    assert_eq!(MAX_AUTHOR_NAME_LEN, 100);
    let links = vec![
        link(Some("/author/1"), "刘慈欣"),
        link(Some("/press/2"), "重庆出版社"),
        link(None, "无名"),
        link(Some("/search/3"), ""),
        link(Some("/search/4"), &"长".repeat(101)),
        link(Some("/search/5"), &"长".repeat(100)),
        LinkCandidate {
            href: Some("/author/6".to_string()),
            runs: vec![" [美] ".to_string(), "\n".to_string(), " 阿西莫夫 ".to_string()],
        },
    ];
    assert_eq!(
        author_names_from(&links),
        vec!["刘慈欣".to_string(), "长".repeat(100), "[美]阿西莫夫".to_string()]
    );
    assert_eq!(author_names_from(&Vec::new()), Vec::<String>::new());
}

#[test]
fn an_author_label_sets_the_authors_if_there_are_any() {
    let mut book = blank("1");
    let mut authors = label("作者", vec![text(": ")]);
    authors.links = vec![link(Some("/author/1"), "余华"), link(Some("/x"), "别的")];
    apply_label(&mut book, &authors);
    assert_eq!(book.author, Some(vec!["余华".to_string()]));
    // Without a link that names an author the authors stay as they were.
    let none = label("作者", vec![text("佚名")]);
    apply_label(&mut book, &none);
    assert_eq!(book.author, Some(vec!["余华".to_string()]));
    let mut fresh = blank("2");
    apply_label(&mut fresh, &none);
    assert_eq!(fresh.author, None);
}

#[test]
fn value_labels_set_their_fields() {
    let mut book = blank("1");
    book.title = "三体".to_string();
    apply_label(&mut book, &label("出版社:", vec![text(" 重庆出版社 ")]));
    apply_label(&mut book, &label("副标题:", vec![text(" 地球往事 ")]));
    apply_label(&mut book, &label("出版年:", vec![text(" 2008-1 ")]));
    apply_label(&mut book, &label("页数:", vec![text(" 302 ")]));
    apply_label(&mut book, &label("ISBN:", vec![text(" 9787536692930 ")]));
    assert_eq!(book.publisher.as_deref(), Some("重庆出版社"));
    assert_eq!(book.title, "三体:地球往事");
    assert_eq!(book.pubdate.as_deref(), Some("2008-1"));
    assert_eq!(book.pages, Some(302));
    assert_eq!(book.id, "1");
    assert_eq!(book.author, None);
    assert_eq!(book.summary, None);
    assert_eq!(book.image, None);
}

#[test]
fn labels_without_a_value_change_nothing() {
    let mut book = blank("1");
    book.title = "活着".to_string();
    book.pages = Some(191);
    apply_label(&mut book, &label("出版社:", vec![text("  ")]));
    apply_label(&mut book, &label("副标题:", Vec::new()));
    apply_label(&mut book, &label("出版年:", vec![SiblingNode::Element(None)]));
    apply_label(&mut book, &label("页数:", vec![text("二百页")]));
    apply_label(&mut book, &label("页数:", vec![text("9999999999")]));
    assert_eq!(book.publisher, None);
    assert_eq!(book.title, "活着");
    assert_eq!(book.pubdate, None);
    assert_eq!(book.pages, Some(191));
}

#[test]
fn labels_are_read_in_order() {
    let mut book = blank("1");
    book.title = "a".to_string();
    apply_labels(
        &mut book,
        &vec![
            label("副标题", vec![text("b")]),
            label("出版年", vec![text("1999")]),
            label("副标题", vec![text("c")]),
            label("出版年", vec![text("2001")]),
        ],
    );
    assert_eq!(book.title, "a:b:c");
    assert_eq!(book.pubdate.as_deref(), Some("2001"));
    let mut same = blank("2");
    apply_labels(&mut same, &Vec::new());
    assert_eq!(same.title, "");
}

#[test]
fn the_first_filled_candidate_wins() {
    assert_eq!(first_filled_of(&Vec::new()), "");
    assert_eq!(first_filled_of(&vec![None, None]), "");
    assert_eq!(first_filled_of(&vec![Some(" a ".to_string()), Some("b".to_string())]), "a");
    assert_eq!(first_filled_of(&vec![None, Some(" b".to_string())]), "b");
    assert_eq!(
        first_filled_of(&vec![Some("  ".to_string()), None, Some("c".to_string())]),
        "c"
    );
}

#[test]
fn a_title_is_looked_for_in_order() {
    assert_eq!(TITLE_WAYS, 2);
    assert_eq!(title_selector(0), "span[property='v:itemreviewed']");
    assert_eq!(title_selector(1), "h1 span");
    let read = |html: &str| read_title(&scraper::Html::parse_document(html));
    assert_eq!(read(""), "");
    assert_eq!(read("<h1><span> 乙 </span></h1>"), "乙");
    assert_eq!(
        read("<h1><span>乙</span></h1><span property=\"v:itemreviewed\">\n 甲\n</span>"),
        "甲"
    );
    assert_eq!(read("<span property=\"v:itemreviewed\"> </span><h1><span>乙</span></h1>"), "乙");
    assert_eq!(read("<span property=\"v:itemreviewed\"> </span><h1><span> </span></h1>"), "");
    assert_eq!(read("<h1><span></span><span>丙</span></h1>"), "");
    assert_eq!(read("<h1><span>&nbsp;A &amp; B&#x4e00;&nbsp;</span></h1>"), "A & B一");
    assert_eq!(read("<span property=\"v:itemreviewed\">&nbsp;</span><h1><span>乙</span></h1>"), "乙");
}

#[test]
fn candidates_need_an_identifier_and_a_title() {
    let s = service();
    let image = ImageFacts {
        alt: Some(" 三体 ".to_string()),
        src: Some("https://img/s.jpg".to_string()),
    };
    let full = SearchCandidate {
        href: Some("https://book.douban.com/subject/1007241/".to_string()),
        image: Some(image.clone()),
    };
    let book = s.book_from_candidate(&full).unwrap();
    assert_eq!(book.id, "1007241");
    assert_eq!(book.title, "三体");
    assert_eq!(book.image.as_deref(), Some("https://img/s.jpg"));
    assert!(book.author.is_none() && book.pubdate.is_none() && book.summary.is_none());

    let no_href = SearchCandidate { href: None, ..full.clone() };
    let no_marker = SearchCandidate { href: Some("/book/1".to_string()), ..full.clone() };
    let no_id = SearchCandidate { href: Some("/subject//".to_string()), ..full.clone() };
    let no_alt =
        SearchCandidate { image: Some(ImageFacts { alt: None, ..image.clone() }), ..full.clone() };
    let blank_alt = SearchCandidate {
        image: Some(ImageFacts { alt: Some("  ".to_string()), ..image.clone() }),
        ..full.clone()
    };
    let no_image = SearchCandidate { image: None, ..full.clone() };
    let no_src =
        SearchCandidate { image: Some(ImageFacts { src: None, ..image.clone() }), ..full.clone() };
    assert!(s.book_from_candidate(&no_href).is_none());
    assert!(s.book_from_candidate(&no_marker).is_none());
    assert!(s.book_from_candidate(&no_id).is_none());
    assert!(s.book_from_candidate(&no_alt).is_none());
    assert!(s.book_from_candidate(&blank_alt).is_none());
    assert!(s.book_from_candidate(&no_image).is_none());
    assert_eq!(s.book_from_candidate(&no_src).unwrap().image, None);

    let books = s.books_from_candidates(&vec![no_href, full.clone(), no_id, no_src]);
    assert_eq!(books.len(), 2);
    assert_eq!(books[0].image.as_deref(), Some("https://img/s.jpg"));
    assert_eq!(books[1].image, None);
    assert!(s.books_from_candidates(&Vec::new()).is_empty());
}

#[test]
fn a_page_gives_an_entry() {
    assert_eq!(MIN_SUMMARY_LEN, 10);
    let s = service();
    let page = DetailPage {
        title: "活着".to_string(),
        cover: Some("/c.jpg".to_string()),
        labels: vec![label("出版年:", vec![text("1993")]), label("副标题:", vec![text("To Live")])],
        summary: Some("12345678901".to_string()),
    };
    let book = s.book_from_page(&page, "1003078");
    assert_eq!(book.id, "1003078");
    assert_eq!(book.title, "活着:To Live");
    assert_eq!(book.image.as_deref(), Some("/c.jpg"));
    assert_eq!(book.pubdate.as_deref(), Some("1993"));
    assert_eq!(book.summary.as_deref(), Some("12345678901"));

    let least = DetailPage { summary: Some("1234567890".to_string()), ..page.clone() };
    assert_eq!(s.book_from_page(&least, "1").summary.as_deref(), Some("1234567890"));
    let short = DetailPage { summary: Some("123456789".to_string()), ..page.clone() };
    assert_eq!(s.book_from_page(&short, "1").summary, None);
    let wide = DetailPage { summary: Some("一二三四五六七八九十".to_string()), ..page.clone() };
    assert!(s.book_from_page(&wide, "1").summary.is_some());
    let narrow = DetailPage { summary: Some("一二三四五六七八九".to_string()), ..page.clone() };
    assert_eq!(s.book_from_page(&narrow, "1").summary, None);
    let empty = DetailPage { summary: Some(String::new()), ..page.clone() };
    assert_eq!(s.book_from_page(&empty, "1").summary, None);
    let bare =
        DetailPage { title: String::new(), cover: None, labels: Vec::new(), summary: None };
    let book = s.book_from_page(&bare, "9");
    assert_eq!(book.id, "9");
    assert_eq!(book.title, "");
    assert!(book.image.is_none() && book.summary.is_none());
}

#[test]
fn elements_are_read_through_the_document() {
    let html = r#"<html><body><div id="info">
        <span><span class="pl"> 作者</span>: <a href="/author/1"> 刘 <b>慈欣</b> </a> / <a href="/x">无关</a></span><br>
        <span class="pl">出版社:</span> | <a href="/press/1"> 重庆出版社 </a><br>
        <span class="pl">出版年:</span><!-- note --> | 2008-1 <br>
        <span class="pl">页数:</span> <b> </b> 302<br>
        <span class="pl">定价:</span><br>
        </div></body></html>"#;
    let document = scraper::Html::parse_document(html);
    let selector = scraper::Selector::parse("span.pl").unwrap();
    let found: Vec<scraper::ElementRef> = document.select(&selector).collect();
    assert_eq!(found.len(), 5);
    let s = service();
    assert_eq!(s.get_element_text(&found[0]), "作者");
    assert_eq!(s.get_element_text(&found[1]), "出版社:");
    assert_eq!(s.get_tail_text(&found[0]).as_deref(), Some(":"));
    assert_eq!(s.get_tail_text(&found[1]).as_deref(), Some("重庆出版社"));
    assert_eq!(s.get_tail_text(&found[2]).as_deref(), Some("| 2008-1"));
    assert_eq!(s.get_tail_text(&found[3]), None);
    assert_eq!(s.get_tail_text(&found[4]), None);

    let labels = read_labels(&document);
    assert_eq!(labels.len(), 5);
    assert_eq!(labels[0].runs, vec![" 作者".to_string()]);
    assert_eq!(labels[0].links.len(), 2);
    assert_eq!(labels[0].links[0].href.as_deref(), Some("/author/1"));
    assert_eq!(
        labels[0].links[0].runs,
        vec![" 刘 ".to_string(), "慈欣".to_string(), " ".to_string()]
    );
    assert_eq!(labels[0].links[1].href.as_deref(), Some("/x"));
    assert!(matches!(labels[0].siblings[0], SiblingNode::Text(_)));
    assert!(matches!(labels[2].siblings[0], SiblingNode::Other));
    assert!(matches!(labels[3].siblings[1], SiblingNode::Element(Some(_))));
    assert!(matches!(labels[4].siblings[0], SiblingNode::Element(None)));

    let mut book = blank("1");
    s.parse_book_info(&document, &mut book);
    assert_eq!(book.author, Some(vec!["刘慈欣".to_string()]));
    assert_eq!(book.publisher.as_deref(), Some("重庆出版社"));
    assert_eq!(book.pubdate.as_deref(), Some("| 2008-1"));
    assert_eq!(book.pages, None);
}

#[test]
fn a_listing_and_a_page_are_read_through_the_document() {
    let listing = scraper::Html::parse_document(
        r#"<a class="nbg" href="/subject/1/"><img alt="甲" src="/1.jpg"></a>
           <a class="nbg"><span>no image</span></a>
           <a class="other" href="/subject/3/"><img alt="丙" src="/3.jpg"></a>"#,
    );
    let candidates = read_candidates(&listing);
    assert_eq!(candidates.len(), 2);
    assert_eq!(candidates[0].href.as_deref(), Some("/subject/1/"));
    let first = candidates[0].image.as_ref().unwrap();
    assert_eq!(first.alt.as_deref(), Some("甲"));
    assert_eq!(first.src.as_deref(), Some("/1.jpg"));
    assert_eq!(candidates[1].href, None);
    assert!(candidates[1].image.is_none());

    let page = read_page(&scraper::Html::parse_document(
        r#"<h1><span>  回退  </span></h1>
           <a class="nbg" href="/l.jpg"><img src="/s.jpg"></a>
           <span class="pl">页数:</span> 12
           <div id="link-report"><div class="intro">first</div><div class="intro">a &lt; b &amp;&amp; c</div></div>"#,
    ));
    assert_eq!(page.title, "回退");
    assert_eq!(page.cover.as_deref(), Some("/s.jpg"));
    assert_eq!(page.labels.len(), 1);
    assert_eq!(page.summary.as_deref(), Some("a < b && c"));
    let empty = read_page(&scraper::Html::parse_document(""));
    assert_eq!(empty.title, "");
    assert!(empty.cover.is_none() && empty.labels.is_empty() && empty.summary.is_none());
}
