//! Creators and posts of the coomer service.
pub mod types;

use vstd::prelude::*;
use vstd::string::*;
use crate::random::random_in_range;
use crate::text::{ends_with, lowercase, owned, replace_all, replaced, str_ends_with, to_lowercase};
use types::{CreatorInfo, FileInfo, PostInfo};

verus! {

/// The address of the list of all creators.
pub fn creators_url() -> (r: String)
    ensures
        r@ == "https://coomer.su/api/v1/creators.txt"@,
{
    owned("https://coomer.su/api/v1/creators.txt")
}

/// `a`, a slash, `b`, a slash, `c`.
pub open spec fn joined3(a: Seq<char>, b: Seq<char>, c: Seq<char>) -> Seq<char> {
    a + "/"@ + b + "/"@ + c
}

/// The address of a creator's posts.
pub fn creator_posts_url(creator: &CreatorInfo) -> (r: String)
    ensures
        r@ == "https://coomer.su/api/v1/"@ + creator.service@ + "/user/"@ + creator.id@,
{
    let mut r = owned("https://coomer.su/api/v1/");
    r.append(creator.service.as_str());
    r.append("/user/");
    r.append(creator.id.as_str());
    r
}

/// The address of a creator's page on the site.
pub fn get_creator_url(creator: &CreatorInfo) -> (r: String)
    ensures
        r@ == "https://coomer.su/"@ + creator.service@ + "/user/"@ + creator.id@,
{
    let mut r = owned("https://coomer.su/");
    r.append(creator.service.as_str());
    r.append("/user/");
    r.append(creator.id.as_str());
    r
}

/// The address of a creator's icon.
pub fn get_creator_icon_url(creator: &CreatorInfo) -> (r: String)
    ensures
        r@ == "https://img.coomer.su/icons/"@ + creator.service@ + "/"@ + creator.id@,
{
    let mut r = owned("https://img.coomer.su/icons/");
    r.append(creator.service.as_str());
    r.append("/");
    r.append(creator.id.as_str());
    r
}

/// The address of a post's file, from its path on the site.
pub fn get_file_url(post_path: &str) -> (r: String)
    ensures
        r@ == "https://coomer.su"@ + post_path@,
{
    let mut r = owned("https://coomer.su");
    r.append(post_path);
    r
}

/// The answer with posts made readable: the service writes an empty object
/// `{}` where it means no value, and each becomes `null`.
pub fn normalize_posts_body(text: &str) -> (r: String)
    ensures
        r@ == replaced(text@, "{}"@, "null"@),
{
    proof {
        reveal_strlit("{}");
    }
    replace_all(text, "{}", "null")
}

/// The position of the first entry of `names` equal to `wanted`.
pub fn first_equal(wanted: &String, names: &Vec<String>) -> (r: Option<usize>)
    ensures
        match r {
            Some(i) => i < names@.len() && names@[i as int]@ == wanted@
                && forall|j: int| 0 <= j < i ==> (#[trigger] names@[j])@ != wanted@,
            None => forall|j: int| 0 <= j < names@.len() ==> (#[trigger] names@[j])@ != wanted@,
        },
{
    let mut i: usize = 0;
    while i < names.len()
        invariant
            i <= names@.len(),
            forall|j: int| 0 <= j < i ==> (#[trigger] names@[j])@ != wanted@,
        decreases names@.len() - i,
    {
        if names[i] == *wanted {
            return Some(i);
        }
        i = i + 1;
    }
    None
}

/// The first creator whose name, lower-cased, equals the lower-cased `name`.
pub fn find_creator_by_name(name: &str, creators: &Vec<CreatorInfo>) -> (r: Option<CreatorInfo>)
    ensures
        match r {
            Some(c) => exists|i: int| {
                &&& 0 <= i < creators@.len()
                &&& #[trigger] creators@[i] == c
                &&& lowercase(c.name@) == lowercase(name@)
                &&& forall|j: int| 0 <= j < i ==> lowercase(#[trigger] creators@[j].name@) != lowercase(name@)
            },
            None => forall|j: int| 0 <= j < creators@.len() ==> lowercase(#[trigger] creators@[j].name@) != lowercase(name@),
        },
{
    let wanted = to_lowercase(name);
    let mut lowered: Vec<String> = Vec::new();
    let mut i: usize = 0;
    while i < creators.len()
        invariant
            i <= creators@.len(),
            lowered@.len() == i,
            forall|j: int| 0 <= j < i ==> (#[trigger] lowered@[j])@ == lowercase(creators@[j].name@),
        decreases creators@.len() - i,
    {
        lowered.push(to_lowercase(creators[i].name.as_str()));
        i = i + 1;
    }
    match first_equal(&wanted, &lowered) {
        Some(k) => {
            let c = creators[k].clone();
            assert forall|j: int| 0 <= j < k implies lowercase(#[trigger] creators@[j].name@) != lowercase(name@) by {
                assert(lowered@[j]@ == lowercase(creators@[j].name@));
            }
            assert(lowered@[k as int]@ == lowercase(creators@[k as int].name@));
            Some(c)
        },
        None => {
            assert forall|j: int| 0 <= j < creators@.len() implies lowercase(#[trigger] creators@[j].name@) != lowercase(name@) by {
                assert(lowered@[j]@ == lowercase(creators@[j].name@));
            }
            None
        },
    }
}

/// Whether a file's path ends like a picture: `png`, `jpg` or `jpeg`.
pub open spec fn is_image_path(path: Seq<char>) -> bool {
    ends_with(path, "png"@) || ends_with(path, "jpg"@) || ends_with(path, "jpeg"@)
}

/// The main file of a post, if it has one.
pub open spec fn main_file(p: PostInfo) -> Seq<FileInfo> {
    match p.file {
        Some(f) => seq![f],
        None => Seq::empty(),
    }
}

/// The files of a post: the main file first, if any, then the attachments.
pub open spec fn post_files(p: PostInfo) -> Seq<FileInfo> {
    main_file(p) + p.attachments@
}

/// The files of all posts, in order.
pub open spec fn all_files(posts: Seq<PostInfo>) -> Seq<FileInfo>
    decreases posts.len(),
{
    if posts.len() == 0 {
        Seq::empty()
    } else {
        all_files(posts.drop_last()) + post_files(posts.last())
    }
}

/// Whether a file is a picture, by its path.
pub open spec fn image_pred() -> spec_fn(FileInfo) -> bool {
    |f: FileInfo| is_image_path(f.path@)
}

/// The pictures among the files of all posts, in order.
pub open spec fn image_files_of(posts: Seq<PostInfo>) -> Seq<FileInfo> {
    all_files(posts).filter(image_pred())
}

fn is_image(path: &str) -> (r: bool)
    ensures
        r == is_image_path(path@),
{
    proof {
        reveal_strlit("png");
        reveal_strlit("jpg");
        reveal_strlit("jpeg");
    }
    str_ends_with(path, "png") || str_ends_with(path, "jpg") || str_ends_with(path, "jpeg")
}

fn push_if_image(out: &mut Vec<FileInfo>, f: &FileInfo)
    ensures
        final(out)@ == old(out)@ + seq![*f].filter(image_pred()),
{
    reveal_with_fuel(Seq::filter, 2);
    assert(seq![*f].drop_last() =~= Seq::<FileInfo>::empty());
    if is_image(f.path.as_str()) {
        out.push(f.clone());
    }
}

/// The pictures among the files of the posts, in order.
pub fn image_files(posts: &Vec<PostInfo>) -> (r: Vec<FileInfo>)
    ensures
        r@ == image_files_of(posts@),
{
    broadcast use Seq::filter_distributes_over_add;
    let mut out: Vec<FileInfo> = Vec::new();
    let mut i: usize = 0;
    assert(posts@.take(0) =~= Seq::<PostInfo>::empty());
    assert(Seq::<FileInfo>::empty().filter(image_pred()) =~= Seq::<FileInfo>::empty()) by {
        reveal_with_fuel(Seq::filter, 1);
    }
    while i < posts.len()
        invariant
            i <= posts@.len(),
            out@ == image_files_of(posts@.take(i as int)),
        decreases posts@.len() - i,
    {
        let post = &posts[i];
        let ghost before = out@;
        let ghost head = main_file(*post);
        if let Some(f) = &post.file {
            push_if_image(&mut out, f);
        }
        assert(head.filter(image_pred()) =~= out@.skip(before.len() as int)) by {
            reveal_with_fuel(Seq::filter, 1);
        }
        assert(out@ =~= before + head.filter(image_pred()));
        let mut k: usize = 0;
        assert(head + post.attachments@.take(0) =~= head);
        while k < post.attachments.len()
            invariant
                k <= post.attachments@.len(),
                post == posts@[i as int],
                out@ == before + (head + post.attachments@.take(k as int)).filter(image_pred()),
            decreases post.attachments@.len() - k,
        {
            push_if_image(&mut out, &post.attachments[k]);
            assert(head + post.attachments@.take(k + 1) =~= (head + post.attachments@.take(k as int)) + seq![post.attachments@[k as int]]);
            k = k + 1;
        }
        assert(head + post.attachments@.take(k as int) =~= post_files(*post));
        assert(posts@.take(i + 1).drop_last() =~= posts@.take(i as int));
        i = i + 1;
    }
    assert(posts@.take(posts@.len() as int) =~= posts@);
    out
}

/// The pictures kept are exactly the picture files of the posts: every kept
/// file is a picture and comes from some post, and every picture file of
/// every post is kept.
pub proof fn lemma_image_files_are_the_pictures(posts: Seq<PostInfo>)
    ensures
        forall|k: int| 0 <= k < image_files_of(posts).len() ==> {
            &&& is_image_path((#[trigger] image_files_of(posts)[k]).path@)
            &&& all_files(posts).contains(image_files_of(posts)[k])
        },
        forall|f: FileInfo| #[trigger] all_files(posts).contains(f) && is_image_path(f.path@) ==> image_files_of(posts).contains(f),
{
    broadcast use vstd::seq_lib::group_filter_ensures;
    assert forall|f: FileInfo| #[trigger] all_files(posts).contains(f) && is_image_path(f.path@) implies image_files_of(posts).contains(f) by {
        let i = choose|i: int| 0 <= i < all_files(posts).len() && all_files(posts)[i] == f;
        all_files(posts).lemma_filter_contains(image_pred(), i);
    }
    assert forall|k: int| 0 <= k < image_files_of(posts).len() implies {
        &&& is_image_path((#[trigger] image_files_of(posts)[k]).path@)
        &&& all_files(posts).contains(image_files_of(posts)[k])
    } by {
        all_files(posts).lemma_filter_pred(image_pred(), k);
        assert(image_files_of(posts).contains(image_files_of(posts)[k]));
        all_files(posts).lemma_filter_contains_rev(image_pred(), image_files_of(posts)[k]);
    }
}

/// The text given when a creator has no pictures.
pub open spec fn no_content_text(c: CreatorInfo) -> Seq<char> {
    c.name@ + " ("@ + c.service@ + ") has no content"@
}

/// A picture drawn at random among the pictures of a creator's posts; a
/// creator without pictures is refused with "{name} ({service}) has no content".
pub fn pick_random_image(creator: &CreatorInfo, posts: &Vec<PostInfo>) -> (r: Result<FileInfo, String>)
    ensures
        r is Ok <==> image_files_of(posts@).len() > 0,
        r matches Ok(f) ==> image_files_of(posts@).contains(f),
        r matches Err(msg) ==> msg@ == no_content_text(*creator),
{
    let files = image_files(posts);
    if files.len() == 0 {
        let mut msg = creator.name.clone();
        msg.append(" (");
        msg.append(creator.service.as_str());
        msg.append(") has no content");
        return Err(msg);
    }
    let i = random_in_range(0, files.len());
    let f = files[i].clone();
    assert(files@[i as int] == f);
    Ok(f)
}

/// Whether `t` holds an opening brace right before a closing one at `i`.
pub open spec fn brace_pair_at(t: Seq<char>, i: int) -> bool {
    0 <= i && i + 1 < t.len() && t[i] == '{' && t[i + 1] == '}'
}

proof fn lemma_normalized_first(t: Seq<char>)
    requires
        t.len() > 0,
    ensures
        replaced(t, seq!['{', '}'], seq!['n', 'u', 'l', 'l']).len() > 0,
        replaced(t, seq!['{', '}'], seq!['n', 'u', 'l', 'l'])[0] == (if t.len() >= 2 && t[0] == '{' && t[1] == '}' { 'n' } else { t[0] }),
{
    let p = seq!['{', '}'];
    if t.len() >= 2 && t.take(2) == p {
        assert(t[0] == '{' && t[1] == '}');
    } else if t.len() >= 2 {
        assert(!(t[0] == '{' && t[1] == '}')) by {
            if t[0] == '{' && t[1] == '}' {
                assert(t.take(2) =~= p);
            }
        }
    }
}

proof fn lemma_normalized_has_no_pair(s: Seq<char>)
    ensures
        forall|i: int| !brace_pair_at(replaced(s, seq!['{', '}'], seq!['n', 'u', 'l', 'l']), i),
    decreases s.len(),
{
    let p = seq!['{', '}'];
    let n = seq!['n', 'u', 'l', 'l'];
    let r = replaced(s, p, n);
    if s.len() < 2 {
    } else if s.take(2) == p {
        lemma_normalized_has_no_pair(s.skip(2));
        let rest = replaced(s.skip(2), p, n);
        assert(r == n + rest);
        assert forall|i: int| !brace_pair_at(r, i) by {
            if brace_pair_at(r, i) {
                if i + 1 < 4 {
                    assert(r[i] == n[i]);
                } else {
                    assert(r[i] == rest[i - 4] && r[i + 1] == rest[i - 3]);
                    assert(brace_pair_at(rest, i - 4));
                }
            }
        }
    } else {
        lemma_normalized_has_no_pair(s.skip(1));
        let rest = replaced(s.skip(1), p, n);
        assert(r == seq![s[0]] + rest);
        assert forall|i: int| !brace_pair_at(r, i) by {
            if brace_pair_at(r, i) {
                if i == 0 {
                    lemma_normalized_first(s.skip(1));
                    assert(rest[0] == '}');
                    assert(s[0] == '{' && s[1] == '}');
                    assert(s.take(2) =~= p);
                } else {
                    assert(r[i] == rest[i - 1] && r[i + 1] == rest[i]);
                    assert(brace_pair_at(rest, i - 1));
                }
            }
        }
    }
}

/// After normalizing, the answer holds no empty object `{}` any more.
pub proof fn lemma_normalized_body_has_no_empty_object(text: Seq<char>)
    ensures
        forall|i: int| !brace_pair_at(replaced(text, "{}"@, "null"@), i),
{
    reveal_strlit("{}");
    reveal_strlit("null");
    assert("{}"@ =~= seq!['{', '}']);
    assert("null"@ =~= seq!['n', 'u', 'l', 'l']);
    lemma_normalized_has_no_pair(text);
}

} // verus!
