use meibe_bot::api::coomer::types::{CreatorInfo, FileInfo, PostInfo};
use meibe_bot::api::coomer::{
    creator_posts_url, creators_url, find_creator_by_name, get_creator_icon_url, get_creator_url, get_file_url,
    image_files, normalize_posts_body, pick_random_image,
};
use meibe_bot::api::redgifs::types::{Error, ErrorInfo};
use meibe_bot::api::redgifs::{bearer_value, pick_random_link, random_search_page, response_error, search_url, temporary_access_url, SearchOrder};
use meibe_bot::api::waifu::types::{WaifuImageInfo, WaifuImages};
use meibe_bot::api::waifu::{first_image, search_url as waifu_search_url};
use meibe_bot::api::ApiError;
use meibe_bot::api::cats::types::CatInfo;
use meibe_bot::api::cats::{first_cat, search_url as cat_search_url};

fn creator() -> CreatorInfo {
    CreatorInfo { id: "77".to_string(), name: "Bella".to_string(), service: "onlyfans".to_string(), favorited: 3 }
}

fn file(path: &str) -> FileInfo {
    FileInfo { path: path.to_string() }
}

#[test]
fn coomer_addresses() {
    let c = creator();
    assert_eq!(creators_url(), "https://coomer.su/api/v1/creators.txt");
    assert_eq!(creator_posts_url(&c), "https://coomer.su/api/v1/onlyfans/user/77");
    assert_eq!(get_creator_url(&c), "https://coomer.su/onlyfans/user/77");
    assert_eq!(get_creator_icon_url(&c), "https://img.coomer.su/icons/onlyfans/77");
    assert_eq!(get_file_url("/data/ab/cd.jpg"), "https://coomer.su/data/ab/cd.jpg");
}

#[test]
fn posts_body_empty_objects_become_null() {
    assert_eq!(normalize_posts_body(r#"[{"file":{},"attachments":[]}]"#), r#"[{"file":null,"attachments":[]}]"#);
    assert_eq!(normalize_posts_body("{{}}"), "{null}");
    assert_eq!(normalize_posts_body("{}{}"), "nullnull");
    assert_eq!(normalize_posts_body("no braces"), "no braces");
}

#[test]
fn find_creator_ignores_case() {
    let mut other = creator();
    other.name = "Someone".to_string();
    let list = vec![other, creator()];
    assert_eq!(find_creator_by_name("bELLA", &list).unwrap().id, "77");
    assert!(find_creator_by_name("nobody", &list).is_none());
}

#[test]
fn only_pictures_are_kept() {
    let posts = vec![
        PostInfo { file: Some(file("/a.png")), attachments: vec![file("/b.mp4"), file("/c.jpeg")] },
        PostInfo { file: None, attachments: vec![file("/d.jpg"), file("/e.gif")] },
    ];
    let files: Vec<String> = image_files(&posts).into_iter().map(|f| f.path).collect();
    assert_eq!(files, vec!["/a.png", "/c.jpeg", "/d.jpg"]);
}

#[test]
fn random_image_or_no_content() {
    let posts = vec![PostInfo { file: Some(file("/only.jpg")), attachments: vec![] }];
    assert_eq!(pick_random_image(&creator(), &posts).unwrap().path, "/only.jpg");
    let posts = vec![PostInfo { file: Some(file("/clip.mp4")), attachments: vec![] }];
    assert_eq!(pick_random_image(&creator(), &posts).err().unwrap(), "Bella (onlyfans) has no content");
}

#[test]
fn redgifs_requests() {
    assert_eq!(SearchOrder::Best.to_string(), "best");
    assert_eq!(SearchOrder::Top24.to_string(), "top24");
    assert_eq!(SearchOrder::Trending.to_string(), "trending");
    assert_eq!(temporary_access_url(), "https://api.redgifs.com/v2/auth/temporary");
    assert_eq!(bearer_value("tok"), "Bearer tok");
    assert_eq!(
        search_url(7, 10, SearchOrder::Best, ""),
        "https://api.redgifs.com/v2/gifs/search?page=7&count=10&order=best"
    );
    assert_eq!(
        search_url(1, 5, SearchOrder::Latest, "cats"),
        "https://api.redgifs.com/v2/gifs/search?page=1&count=5&order=latest&search_text=cats"
    );
}

#[test]
fn redgifs_answers() {
    let e = response_error(Error { error: ErrorInfo { code: "x".to_string(), message: "bad tags".to_string(), status: 400 } });
    assert!(matches!(e, ApiError::ResponseError(ref s) if s == "bad tags"));
    for _ in 0..50 {
        let p = random_search_page();
        assert!((1..100).contains(&p));
    }
    let link = pick_random_link(&vec![Some("https://hd/1".to_string())]);
    assert_eq!(link, "https://hd/1");
    assert_eq!(pick_random_link(&vec![None]), "");
}

#[test]
fn waifu_requests() {
    assert_eq!(waifu_search_url(true, None), "https://api.waifu.im/search?is_nsfw=true");
    assert_eq!(waifu_search_url(false, Some(true)), "https://api.waifu.im/search?is_nsfw=falsegif=true");
    let img = WaifuImageInfo { url: "https://w/1".to_string(), width: 1, height: 2, byte_size: 3, is_nsfw: true };
    assert_eq!(first_image(WaifuImages { images: vec![img] }).ok().unwrap().url, "https://w/1");
    let e = first_image(WaifuImages { images: vec![] }).err().unwrap();
    assert!(matches!(e, ApiError::Generic(ref s) if s == "No images found"));
}

#[test]
fn cats_come_from_the_first_entry() {
    assert_eq!(cat_search_url(), "https://api.thecatapi.com/v1/images/search");
    let cat = |id: &str| CatInfo { id: id.to_string(), url: format!("https://cdn/{id}.jpg"), width: 10, height: 20 };
    let c = first_cat(vec![cat("a"), cat("b")]);
    assert_eq!((c.id.as_str(), c.url.as_str(), c.width, c.height), ("a", "https://cdn/a.jpg", 10, 20));
}
