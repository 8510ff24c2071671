//! The embeds the bot sends: now playing, added to queue, queue pages and
//! media posts.
use vstd::prelude::*;
use vstd::string::*;
use crate::messages::message::{empty_embed, meibe_pink, AuthorView, Colour, CreateEmbed, EmbedAuthor, EmbedField, EmbedView};
use crate::api::coomer::types::CreatorInfo;
use crate::music::types::{full_name_of, TrackInfo};
use crate::text::{decimal, decimal_string, owned};
use crate::utils::{clock, duration_string, get_total_pages, total_pages};

verus! {

/// Number of cells of the progress bar.
pub const TRACK_BAR_SIZE: usize = 15;

/// How often the current track is still to be played again.
#[derive(Clone, Copy, Debug, PartialEq, Eq)]
pub enum LoopState {
    /// Without end.
    Infinite,
    /// This many more times.
    Finite(usize),
}

/// Where the current track stands: its position in whole seconds (counting
/// every earlier loop) and its looping.
#[derive(Clone, Debug)]
pub struct TrackState {
    pub position_secs: u64,
    pub loops: LoopState,
}

/// The field view `("", value, false)` that these embeds use for lines of text.
pub open spec fn line(value: Seq<char>) -> (Seq<char>, Seq<char>, bool) {
    (""@, value, false)
}

/// A progress bar of `TRACK_BAR_SIZE` cells with the knob at cell `knob`:
/// the cells before it are filled, those after it are empty.
pub open spec fn progress_bar(knob: nat) -> Seq<char> {
    Seq::new(TRACK_BAR_SIZE as nat, |i: int| if i < knob { '━' } else if i == knob { '⬤' } else { '─' })
}

/// The cell of the progress bar for `elapsed` seconds of `total`.
pub open spec fn knob_cell(elapsed: nat, total: nat) -> nat
    recommends
        total > 0,
{
    ((TRACK_BAR_SIZE as int) * (elapsed as int) / (total as int)) as nat
}

/// The player line: controls, bar, elapsed time and length.
pub open spec fn player_line(elapsed: nat, total: nat) -> Seq<char> {
    "**◁  Ⅱ  ▷    "@ + progress_bar(knob_cell(elapsed, total)) + "    "@ + clock(elapsed) + " / "@
        + clock(total) + "**"@
}

/// The line that tells the looping, if there is one to tell.
pub open spec fn loop_lines(loops: LoopState) -> Seq<(Seq<char>, Seq<char>, bool)> {
    match loops {
        LoopState::Infinite => seq![line("🔁 Infinite looping"@)],
        LoopState::Finite(n) => if n == 0 {
            seq![]
        } else {
            seq![line("🔁 Remaining loops: "@ + decimal(n as nat))]
        },
    }
}

/// `text` in bold.
pub open spec fn bold(text: Seq<char>) -> Seq<char> {
    "**"@ + text + "**"@
}

/// The fields of the now-playing embed. Without a known length there are
/// none; otherwise the player line (the position taken modulo the length, as
/// it keeps growing while the track loops), the looping line if any, and the
/// caption in bold.
pub open spec fn now_playing_fields(duration: Option<u64>, state: TrackState, caption: Seq<char>) -> Seq<(Seq<char>, Seq<char>, bool)> {
    match duration {
        None => seq![],
        Some(d) => {
            let elapsed = (state.position_secs % d) as nat;
            seq![line(player_line(elapsed, d as nat))] + loop_lines(state.loops) + seq![line(bold(caption))]
        },
    }
}

/// The head of the track embeds: an author line, the pink colour, the track's
/// full name as title, linked to the track, with its thumbnail.
pub open spec fn track_head(author: Seq<char>, info: TrackInfo) -> EmbedView {
    EmbedView {
        author: Some(AuthorView { name: author, url: None, icon_url: None }),
        colour: Some(meibe_pink()),
        title: Some(full_name_of(info.artist@, info.title@)),
        url: Some(info.url@),
        thumbnail: Some(info.thumbnail@),
        ..empty_embed()
    }
}

fn track_head_embed(author: &str, info: &TrackInfo) -> (e: CreateEmbed)
    ensures
        e@ == track_head(author@, *info),
{
    let mut e = CreateEmbed::new();
    e.author = Some(EmbedAuthor::new(owned(author)));
    e.colour = Some(Colour::meibe_pink());
    e.title = Some(info.full_name());
    e.url = Some(info.url.clone());
    e.thumbnail = Some(info.thumbnail.clone());
    e
}

fn progress_bar_string(knob: u64) -> (r: String)
    ensures
        r@ == progress_bar(knob as nat),
{
    let mut r = String::new();
    let mut i: usize = 0;
    while i < TRACK_BAR_SIZE
        invariant
            i <= TRACK_BAR_SIZE,
            r@ == progress_bar(knob as nat).take(i as int),
        decreases TRACK_BAR_SIZE - i,
    {
        proof {
            reveal_strlit("━");
            reveal_strlit("⬤");
            reveal_strlit("─");
        }
        if (i as u64) < knob {
            r.append("━");
        } else if i as u64 == knob {
            r.append("⬤");
        } else {
            r.append("─");
        }
        assert(progress_bar(knob as nat).take(i + 1) =~= progress_bar(knob as nat).take(i as int).push(progress_bar(knob as nat)[i as int]));
        i = i + 1;
    }
    assert(progress_bar(knob as nat).take(TRACK_BAR_SIZE as int) =~= progress_bar(knob as nat));
    r
}

fn bold_string(text: &str) -> (r: String)
    ensures
        r@ == bold(text@),
{
    let mut r = owned("**");
    r.append(text);
    r.append("**");
    r
}

fn player_line_string(elapsed: u64, total: u64) -> (r: String)
    requires
        total > 0,
        elapsed < total,
    ensures
        r@ == player_line(elapsed as nat, total as nat),
{
    let product: u128 = TRACK_BAR_SIZE as u128 * elapsed as u128;
    let quotient: u128 = product / total as u128;
    assert(quotient < TRACK_BAR_SIZE) by (nonlinear_arith)
        requires
            product == (TRACK_BAR_SIZE as int) * (elapsed as int),
            quotient == product as int / total as int,
            elapsed < total,
            total > 0,
    ;
    let knob: u64 = quotient as u64;
    assert(knob as nat == knob_cell(elapsed as nat, total as nat));
    let mut r = owned("**◁  Ⅱ  ▷    ");
    let bar = progress_bar_string(knob);
    r.append(bar.as_str());
    r.append("    ");
    let e = duration_string(elapsed);
    r.append(e.as_str());
    r.append(" / ");
    let t = duration_string(total);
    r.append(t.as_str());
    r.append("**");
    r
}

/// The embed for the track that is playing: the track head under "🎧 Playing
/// right now", then, when the track's length is known, the player line, the
/// looping and the caption.
pub fn create_now_playing_embed(info: &TrackInfo, state: &TrackState, caption: &str) -> (e: CreateEmbed)
    requires
        info.duration matches Some(d) ==> d > 0,
    ensures
        e@ == (EmbedView {
            fields: now_playing_fields(info.duration, *state, caption@),
            ..track_head("🎧 Playing right now"@, *info)
        }),
{
    let mut embed = track_head_embed("🎧 Playing right now", info);
    if let Some(duration) = info.duration {
        let elapsed = state.position_secs % duration;
        let player = player_line_string(elapsed, duration);
        embed.push_field(EmbedField::new("", player));
        match state.loops {
            LoopState::Infinite => {
                embed.push_field(EmbedField::new("", owned("🔁 Infinite looping")));
            },
            LoopState::Finite(n) => {
                if n != 0 {
                    let mut text = owned("🔁 Remaining loops: ");
                    let count = decimal_string(n as u64);
                    text.append(count.as_str());
                    embed.push_field(EmbedField::new("", text));
                }
            },
        }
        embed.push_field(EmbedField::new("", bold_string(caption)));
        assert(embed@.fields =~= now_playing_fields(info.duration, *state, caption@));
    } else {
        assert(embed@.fields =~= now_playing_fields(info.duration, *state, caption@));
    }
    embed
}

/// The embed for a track that was added to the queue: the track head under
/// "🚀 Added to queue", then, when the track's length is known, the length and
/// the caption.
pub fn create_queued_track_embed(info: TrackInfo, caption: &str) -> (e: CreateEmbed)
    ensures
        e@ == (EmbedView {
            fields: match info.duration {
                None => seq![],
                Some(d) => seq![line(bold("Duration: "@ + clock(d as nat))), line(bold(caption@))],
            },
            ..track_head("🚀 Added to queue"@, info)
        }),
{
    let mut embed = track_head_embed("🚀 Added to queue", &info);
    if let Some(duration) = info.duration {
        let mut text = owned("Duration: ");
        let time = duration_string(duration);
        text.append(time.as_str());
        embed.push_field(EmbedField::new("", bold_string(text.as_str())));
        embed.push_field(EmbedField::new("", bold_string(caption)));
    }
    assert(embed@.fields =~= match info.duration {
        None => seq![],
        Some(d) => seq![line(bold("Duration: "@ + clock(d as nat))), line(bold(caption@))],
    });
    embed
}

/// The embed for a playlist that was added to the queue: how many tracks
/// came in, and the caption.
pub fn create_queued_tracks_embed(count: usize, caption: &str) -> (e: CreateEmbed)
    ensures
        e@ == (EmbedView {
            author: Some(AuthorView {
                name: "🚀 Added to queue "@ + decimal(count as nat) + " tracks"@,
                url: None,
                icon_url: None,
            }),
            fields: seq![line(bold(caption@))],
            colour: Some(meibe_pink()),
            ..empty_embed()
        }),
{
    let mut name = owned("🚀 Added to queue ");
    let n = decimal_string(count as u64);
    name.append(n.as_str());
    name.append(" tracks");
    let mut embed = CreateEmbed::new();
    embed.author = Some(EmbedAuthor::new(name));
    embed.push_field(EmbedField::new("", bold_string(caption)));
    embed.colour = Some(Colour::meibe_pink());
    assert(embed@.fields =~= seq![line(bold(caption@))]);
    embed
}

/// Sum of the known lengths, in seconds, of the tracks.
pub open spec fn total_duration(tracks: Seq<TrackInfo>) -> nat
    decreases tracks.len(),
{
    if tracks.len() == 0 {
        0
    } else {
        total_duration(tracks.drop_last()) + match tracks.last().duration {
            Some(d) => d as nat,
            None => 0,
        }
    }
}

/// A prefix of a queue never lasts longer than the whole queue.
pub proof fn lemma_total_duration_prefix(tracks: Seq<TrackInfo>, k: int)
    requires
        0 <= k <= tracks.len(),
    ensures
        total_duration(tracks.take(k)) <= total_duration(tracks),
    decreases tracks.len() - k,
{
    if k < tracks.len() {
        lemma_total_duration_prefix(tracks, k + 1);
        assert(tracks.take(k + 1).drop_last() =~= tracks.take(k));
    } else {
        assert(tracks.take(k) =~= tracks);
    }
}

/// The line for the playing track in the queue list.
pub open spec fn current_entry(t: TrackInfo) -> Seq<char> {
    "🔥 **["@ + full_name_of(t.artist@, t.title@) + "]("@ + t.url@ + ")**"@
}

/// The line for the waiting track numbered `number` in the queue list.
pub open spec fn queue_entry(number: nat, t: TrackInfo) -> Seq<char> {
    decimal(number) + ") ["@ + full_name_of(t.artist@, t.title@) + "]("@ + t.url@ + ")"@
}

/// Index one past the last waiting track shown on `page`.
pub open spec fn page_end(waiting: nat, page: nat, per_page: nat) -> nat {
    if per_page * page + per_page < waiting { per_page * page + per_page } else { waiting }
}

/// The fields of a queue page: the playing track, then the waiting tracks
/// numbered `per_page * page + 1` on, as many as fit on the page.
pub open spec fn queue_page_fields(tracks: Seq<TrackInfo>, page: nat, per_page: nat) -> Seq<(Seq<char>, Seq<char>, bool)> {
    let waiting = (tracks.len() - 1) as nat;
    let from = per_page * page;
    let to = page_end(waiting, page, per_page);
    seq![line(current_entry(tracks[0]))] + Seq::new(
        if to > from { (to - from) as nat } else { 0 },
        |j: int| line(queue_entry((from + j + 1) as nat, tracks[from + j + 1])),
    )
}

/// The title of a queue page: its number and the number of pages (at least one).
pub open spec fn queue_page_title(waiting: nat, page: nat, per_page: nat) -> Seq<char> {
    let pages = total_pages(waiting, per_page);
    "🎧 Tracks Queue ("@ + decimal(page + 1) + "/"@ + decimal(if pages >= 1 { pages } else { 1 }) + ")"@
}

fn entry_string(prefix: String, info: &TrackInfo, closing: &str) -> (r: String)
    ensures
        r@ == prefix@ + full_name_of(info.artist@, info.title@) + "]("@ + info.url@ + closing@,
{
    let mut r = prefix;
    let name = info.full_name();
    r.append(name.as_str());
    r.append("](");
    r.append(info.url.as_str());
    r.append(closing);
    r
}

/// One page of the queue list. The first track is the one playing; the
/// others wait, `items_per_page` to a page, and page `page` (counted from 0)
/// is shown. The footer tells how long the waiting tracks last together,
/// when any are waiting.
pub fn create_queue_list_embed(tracks: Vec<TrackInfo>, page: usize, items_per_page: usize) -> (e: CreateEmbed)
    requires
        tracks@.len() >= 1,
        items_per_page > 0,
        items_per_page * page + items_per_page <= usize::MAX,
        page + 1 <= usize::MAX,
        total_duration(tracks@.skip(1)) <= u64::MAX,
    ensures
        e@ == (EmbedView {
            title: Some(queue_page_title((tracks@.len() - 1) as nat, page as nat, items_per_page as nat)),
            colour: Some(meibe_pink()),
            fields: queue_page_fields(tracks@, page as nat, items_per_page as nat),
            footer: if tracks@.len() > 1 {
                Some("Total queue duration: "@ + clock(total_duration(tracks@.skip(1))))
            } else {
                None
            },
            ..empty_embed()
        }),
{
    let waiting = tracks.len() - 1;
    let pages = get_total_pages(waiting, items_per_page);
    let pages = if pages < 1 { 1 } else { pages };
    assert(items_per_page * page <= usize::MAX) by (nonlinear_arith)
        requires
            items_per_page * page + items_per_page <= usize::MAX,
            items_per_page > 0,
    ;
    let offset = items_per_page * page;

    let mut title = owned("🎧 Tracks Queue (");
    let number = decimal_string((page + 1) as u64);
    title.append(number.as_str());
    title.append("/");
    let count = decimal_string(pages as u64);
    title.append(count.as_str());
    title.append(")");

    let mut embed = CreateEmbed::new();
    embed.title = Some(title);
    embed.colour = Some(Colour::meibe_pink());
    embed.push_field(EmbedField::new("", entry_string(owned("🔥 **["), &tracks[0], ")**")));

    let from = offset;
    let to = if offset + items_per_page < waiting { offset + items_per_page } else { waiting };
    let ghost expected = queue_page_fields(tracks@, page as nat, items_per_page as nat);
    let ghost head = embed@;
    assert(embed@.fields =~= expected.take(1));
    let mut i = from;
    while i < to
        invariant
            to <= waiting,
            waiting == tracks@.len() - 1,
            from == items_per_page * page,
            to == page_end(waiting as nat, page as nat, items_per_page as nat),
            from < to ==> from <= i <= to,
            from >= to ==> i == from,
            expected == queue_page_fields(tracks@, page as nat, items_per_page as nat),
            embed@ == (EmbedView { fields: expected.take(1 + i - from), ..head }),
        decreases to - i,
    {
        let mut prefix = decimal_string((i + 1) as u64);
        prefix.append(") [");
        embed.push_field(EmbedField::new("", entry_string(prefix, &tracks[i + 1], ")")));
        assert(expected.take(1 + i + 1 - from) =~= expected.take(1 + i - from).push(expected[1 + i - from]));
        i = i + 1;
    }
    assert(embed@.fields =~= expected);

    if waiting > 0 {
        let mut total: u64 = 0;
        let mut k: usize = 1;
        while k < tracks.len()
            invariant
                1 <= k <= tracks@.len(),
                total as nat == total_duration(tracks@.skip(1).take(k - 1)),
                total_duration(tracks@.skip(1)) <= u64::MAX,
            decreases tracks@.len() - k,
        {
            proof {
                lemma_total_duration_prefix(tracks@.skip(1), k as int);
                assert(tracks@.skip(1).take(k as int).drop_last() =~= tracks@.skip(1).take(k - 1));
            }
            if let Some(d) = tracks[k].duration {
                total = total + d;
            }
            k = k + 1;
        }
        assert(tracks@.skip(1).take(tracks@.len() - 1) =~= tracks@.skip(1));
        let mut footer = owned("Total queue duration: ");
        let time = duration_string(total);
        footer.append(time.as_str());
        embed.footer = Some(footer);
    }
    embed
}

/// The embed for a creator's picture: the picture, linked to itself, titled
/// "Content", under the creator's name, linked to the creator's page and
/// with the creator's icon, then the service and the popularity.
pub fn create_coomer_image_embed(creator: &CreatorInfo, image_url: String, creator_url: String, creator_icon_url: String) -> (e: CreateEmbed)
    ensures
        e@ == (EmbedView {
            url: Some(image_url@),
            image: Some(image_url@),
            title: Some("Content"@),
            author: Some(AuthorView { name: creator.name@, url: Some(creator_url@), icon_url: Some(creator_icon_url@) }),
            fields: seq![("Service"@, creator.service@, false), ("Popularity"@, decimal(creator.favorited as nat), false)],
            colour: Some(meibe_pink()),
            ..empty_embed()
        }),
{
    let mut embed = CreateEmbed::new();
    embed.url = Some(image_url.clone());
    embed.image = Some(image_url);
    embed.title = Some(owned("Content"));
    embed.author = Some(EmbedAuthor { name: creator.name.clone(), url: Some(creator_url), icon_url: Some(creator_icon_url) });
    embed.push_field(EmbedField::new("Service", creator.service.clone()));
    embed.push_field(EmbedField::new("Popularity", decimal_string(creator.favorited)));
    embed.colour = Some(Colour::meibe_pink());
    assert(embed@.fields =~= seq![("Service"@, creator.service@, false), ("Popularity"@, decimal(creator.favorited as nat), false)]);
    embed
}

/// The now-playing fields depend on the position only modulo the track's
/// length: a track that has looped once more shows the same player line.
pub proof fn lemma_now_playing_periodic(d: u64, position: u64, loops: LoopState, caption: Seq<char>)
    requires
        d > 0,
        position + d <= u64::MAX,
    ensures
        now_playing_fields(Some(d), TrackState { position_secs: position, loops }, caption)
            == now_playing_fields(Some(d), TrackState { position_secs: (position + d) as u64, loops }, caption),
{
    vstd::arithmetic::div_mod::lemma_mod_add_multiples_vanish(position as int, d as int);
    assert(((position + d) as u64) % d == position % d);
}

/// The now-playing fields, for a track of known length `d`: first the player
/// line for the position within the track, last the caption in bold, and
/// between them exactly one looping line unless no loop is left: "🔁
/// Infinite looping" for endless looping, "🔁 Remaining loops: n" for `n >= 1`
/// loops left, and none for `Finite(0)`.
pub proof fn lemma_now_playing_lines(d: u64, state: TrackState, caption: Seq<char>)
    requires
        d > 0,
    ensures
        ({
            let f = now_playing_fields(Some(d), state, caption);
            &&& f.len() >= 2
            &&& f[0] == (""@, player_line((state.position_secs % d) as nat, d as nat), false)
            &&& f[f.len() - 1] == (""@, "**"@ + caption + "**"@, false)
            &&& state.loops == LoopState::Finite(0) ==> f.len() == 2
            &&& state.loops == LoopState::Infinite ==> f.len() == 3 && f[1] == (""@, "🔁 Infinite looping"@, false)
            &&& forall|n: usize| n >= 1 && state.loops == LoopState::Finite(n) ==>
                f.len() == 3 && f[1] == (""@, "🔁 Remaining loops: "@ + decimal(n as nat), false)
        }),
{
}

/// The knob of the progress bar always lies on the bar, and the bar always
/// has `TRACK_BAR_SIZE` cells.
pub proof fn lemma_progress_bar_fits(elapsed: nat, total: nat)
    requires
        total > 0,
        elapsed < total,
    ensures
        knob_cell(elapsed, total) < TRACK_BAR_SIZE,
        progress_bar(knob_cell(elapsed, total)).len() == TRACK_BAR_SIZE,
{
    assert((TRACK_BAR_SIZE as int) * (elapsed as int) / (total as int) < TRACK_BAR_SIZE) by (nonlinear_arith)
        requires
            total > 0,
            elapsed < total,
    ;
}

/// Every waiting track shows on exactly one page: the waiting track `w`
/// (counted from 0) is entry `w % per_page` of page `w / per_page`, numbered
/// `w + 1`; and no page shows more than `per_page` entries.
pub proof fn lemma_queue_pages_cover(tracks: Seq<TrackInfo>, per_page: nat, w: nat, page: nat)
    requires
        tracks.len() >= 1,
        per_page > 0,
        w < tracks.len() - 1,
    ensures
        queue_page_fields(tracks, w / per_page, per_page)[1 + (w % per_page) as int]
            == line(queue_entry(w + 1, tracks[w + 1 as int])),
        queue_page_fields(tracks, page, per_page).len() <= 1 + per_page,
{
    let p = w / per_page;
    let r = w % per_page;
    assert(per_page * p + r == w && r < per_page) by (nonlinear_arith)
        requires
            per_page > 0,
            p == w / per_page,
            r == w % per_page,
    ;
    let waiting = (tracks.len() - 1) as nat;
    assert(per_page * p <= w);
    assert(page_end(waiting, p, per_page) > w);
}

} // verus!
