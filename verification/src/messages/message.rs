//! Embeds, messages and message parameters.
use vstd::prelude::*;
use vstd::string::*;
use crate::text::owned;

verus! {

/// An RGB colour, `0xRRGGBB`.
#[derive(Clone, Copy, Debug, PartialEq, Eq, Structural)]
pub struct Colour(pub u32);

/// Red, `0xE74C3C`.
pub open spec fn red() -> u32 { 0xE74C3C }
/// Dark green, `0x1F8B4C`.
pub open spec fn dark_green() -> u32 { 0x1F8B4C }
/// Blue, `0x3498DB`.
pub open spec fn blue() -> u32 { 0x3498DB }
/// The bot's pink, `0xE68397`.
pub open spec fn meibe_pink() -> u32 { 0xE68397 }

impl Colour {
    /// Red, used for errors.
    pub fn red() -> (c: Colour)
        ensures
            c.0 == red(),
    {
        Colour(0xE74C3C)
    }

    /// Dark green, used for successes.
    pub fn dark_green() -> (c: Colour)
        ensures
            c.0 == dark_green(),
    {
        Colour(0x1F8B4C)
    }

    /// Blue, used for everything else.
    pub fn blue() -> (c: Colour)
        ensures
            c.0 == blue(),
    {
        Colour(0x3498DB)
    }

    /// The pink of the bot's own embeds.
    pub fn meibe_pink() -> (c: Colour)
        ensures
            c.0 == meibe_pink(),
    {
        Colour(0xE68397)
    }
}

/// The view of an optional text.
pub open spec fn opt_text(o: Option<String>) -> Option<Seq<char>> {
    match o {
        Some(s) => Some(s@),
        None => None,
    }
}

/// One field of an embed: a name, a value, and whether it stands inline.
#[derive(Clone, Debug)]
pub struct EmbedField {
    pub name: String,
    pub value: String,
    pub inline: bool,
}

impl View for EmbedField {
    type V = (Seq<char>, Seq<char>, bool);

    open spec fn view(&self) -> (Seq<char>, Seq<char>, bool) {
        (self.name@, self.value@, self.inline)
    }
}

impl EmbedField {
    /// A field with the given name and value that does not stand inline.
    pub fn new(name: &str, value: String) -> (f: EmbedField)
        ensures
            f@ == (name@, value@, false),
    {
        EmbedField { name: owned(name), value, inline: false }
    }
}

/// The author line of an embed.
#[derive(Clone, Debug)]
pub struct EmbedAuthor {
    pub name: String,
    pub url: Option<String>,
    pub icon_url: Option<String>,
}

/// The view of an embed's author line.
pub struct AuthorView {
    pub name: Seq<char>,
    pub url: Option<Seq<char>>,
    pub icon_url: Option<Seq<char>>,
}

impl View for EmbedAuthor {
    type V = AuthorView;

    open spec fn view(&self) -> AuthorView {
        AuthorView { name: self.name@, url: opt_text(self.url), icon_url: opt_text(self.icon_url) }
    }
}

impl EmbedAuthor {
    /// An author line holding only a name.
    pub fn new(name: String) -> (a: EmbedAuthor)
        ensures
            a@ == (AuthorView { name: name@, url: None, icon_url: None }),
    {
        EmbedAuthor { name, url: None, icon_url: None }
    }
}

/// A rich message: every part is optional, fields come in order.
#[derive(Clone, Debug)]
pub struct CreateEmbed {
    pub title: Option<String>,
    pub description: Option<String>,
    pub url: Option<String>,
    pub image: Option<String>,
    pub thumbnail: Option<String>,
    pub colour: Option<Colour>,
    pub author: Option<EmbedAuthor>,
    pub footer: Option<String>,
    pub fields: Vec<EmbedField>,
}

/// The view of an embed.
pub struct EmbedView {
    pub title: Option<Seq<char>>,
    pub description: Option<Seq<char>>,
    pub url: Option<Seq<char>>,
    pub image: Option<Seq<char>>,
    pub thumbnail: Option<Seq<char>>,
    pub colour: Option<u32>,
    pub author: Option<AuthorView>,
    pub footer: Option<Seq<char>>,
    pub fields: Seq<(Seq<char>, Seq<char>, bool)>,
}

/// An embed with nothing set.
pub open spec fn empty_embed() -> EmbedView {
    EmbedView {
        title: None,
        description: None,
        url: None,
        image: None,
        thumbnail: None,
        colour: None,
        author: None,
        footer: None,
        fields: Seq::empty(),
    }
}

impl View for CreateEmbed {
    type V = EmbedView;

    open spec fn view(&self) -> EmbedView {
        EmbedView {
            title: opt_text(self.title),
            description: opt_text(self.description),
            url: opt_text(self.url),
            image: opt_text(self.image),
            thumbnail: opt_text(self.thumbnail),
            colour: match self.colour {
                Some(c) => Some(c.0),
                None => None,
            },
            author: match self.author {
                Some(a) => Some(a@),
                None => None,
            },
            footer: opt_text(self.footer),
            fields: self.fields@.map_values(|f: EmbedField| f@),
        }
    }
}

impl CreateEmbed {
    /// An embed with nothing set.
    pub fn new() -> (e: CreateEmbed)
        ensures
            e@ == empty_embed(),
    {
        let e = CreateEmbed {
            title: None,
            description: None,
            url: None,
            image: None,
            thumbnail: None,
            colour: None,
            author: None,
            footer: None,
            fields: Vec::new(),
        };
        assert(e@.fields =~= Seq::empty());
        e
    }

    /// Appends a field after the ones already there.
    pub fn push_field(&mut self, field: EmbedField)
        ensures
            final(self)@ == (EmbedView { fields: old(self)@.fields.push(field@), ..old(self)@ }),
    {
        let ghost before = self.fields@;
        self.fields.push(field);
        assert(self.fields@.map_values(|f: EmbedField| f@) =~= before.map_values(|f: EmbedField| f@).push(field@));
    }
}

/// A message to show: a success, an error, an embed or plain text.
#[derive(Clone, Debug)]
pub enum Message {
    Success(String),
    Error(String),
    Embed(CreateEmbed),
    Other(String),
}

/// The text a message shows: successes and errors get a mark and bold type,
/// plain text is shown as it is, an embed has no text of its own.
pub open spec fn message_text(m: Message) -> Seq<char> {
    match m {
        Message::Success(s) => "✅ **"@ + s@ + "**"@,
        Message::Error(s) => "❗ **"@ + s@ + "**"@,
        Message::Other(s) => s@,
        Message::Embed(_) => "Empty"@,
    }
}

/// The colour that goes with a message: red for errors, dark green for
/// successes, blue otherwise.
pub open spec fn message_colour(m: Message) -> u32 {
    match m {
        Message::Error(_) => red(),
        Message::Success(_) => dark_green(),
        _ => blue(),
    }
}

fn wrap_bold(mark: &str, s: &String) -> (r: String)
    ensures
        r@ == mark@ + "**"@ + s@ + "**"@,
{
    let mut r = owned(mark);
    r.append("**");
    r.append(s.as_str());
    r.append("**");
    r
}

impl Message {
    /// The text this message shows.
    pub fn to_string(&self) -> (r: String)
        ensures
            r@ == message_text(*self),
    {
        match self {
            Message::Success(s) => {
                let r = wrap_bold("✅ ", s);
                proof { reveal_strlit("✅ "); reveal_strlit("✅ **"); reveal_strlit("**"); }
                assert(r@ == "✅ **"@ + s@ + "**"@);
                r
            },
            Message::Error(s) => {
                let r = wrap_bold("❗ ", s);
                proof { reveal_strlit("❗ "); reveal_strlit("❗ **"); reveal_strlit("**"); }
                assert(r@ == "❗ **"@ + s@ + "**"@);
                r
            },
            Message::Other(s) => s.clone(),
            Message::Embed(_) => owned("Empty"),
        }
    }

    /// The colour that goes with this message.
    pub fn colour(&self) -> (c: Colour)
        ensures
            c.0 == message_colour(*self),
    {
        match self {
            Message::Error(_) => Colour::red(),
            Message::Success(_) => Colour::dark_green(),
            _ => Colour::blue(),
        }
    }

    /// The message shown as an embed: its colour and its text as the description.
    pub fn into_embed(self) -> (e: CreateEmbed)
        ensures
            e@ == (EmbedView {
                colour: Some(message_colour(self)),
                description: Some(message_text(self)),
                ..empty_embed()
            }),
    {
        let mut e = CreateEmbed::new();
        e.colour = Some(self.colour());
        e.description = Some(self.to_string());
        e
    }
}

/// How a message is to be sent.
pub struct MessageParams {
    pub as_embed: bool,
    pub ephemeral: bool,
    pub reply: bool,
    pub color: Colour,
    pub message: Message,
    pub embed: Option<CreateEmbed>,
}

/// The default parameters: an embed, not ephemeral, not a reply, blue, with
/// empty plain text and no embed of its own.
pub open spec fn is_default_params(p: MessageParams) -> bool {
    &&& p.as_embed
    &&& !p.ephemeral
    &&& !p.reply
    &&& p.color.0 == blue()
    &&& p.message matches Message::Other(s) && s@ == Seq::<char>::empty()
    &&& p.embed is None
}

impl MessageParams {
    /// The default parameters.
    pub fn default() -> (p: MessageParams)
        ensures
            is_default_params(p),
    {
        MessageParams {
            as_embed: true,
            ephemeral: false,
            reply: false,
            color: Colour::blue(),
            message: Message::Other(String::new()),
            embed: None,
        }
    }

    /// The default parameters with the given message.
    pub fn new(message: Message) -> (p: MessageParams)
        ensures
            p.as_embed,
            !p.ephemeral,
            !p.reply,
            p.color.0 == blue(),
            p.message == message,
            p.embed is None,
    {
        MessageParams { message, ..MessageParams::default() }
    }

    /// The same parameters, sent as an embed or not.
    pub fn with_as_embed(self, as_embed: bool) -> (p: MessageParams)
        ensures
            p == (MessageParams { as_embed, ..self }),
    {
        MessageParams { as_embed, ..self }
    }

    /// The same parameters, ephemeral or not.
    pub fn with_ephemeral(self, ephemeral: bool) -> (p: MessageParams)
        ensures
            p == (MessageParams { ephemeral, ..self }),
    {
        MessageParams { ephemeral, ..self }
    }

    /// The same parameters, as a reply or not.
    pub fn with_reply(self, reply: bool) -> (p: MessageParams)
        ensures
            p == (MessageParams { reply, ..self }),
    {
        MessageParams { reply, ..self }
    }

    /// The same parameters with another colour.
    pub fn with_color(self, color: Colour) -> (p: MessageParams)
        ensures
            p == (MessageParams { color, ..self }),
    {
        MessageParams { color, ..self }
    }

    /// The same parameters with another message.
    pub fn with_msg(self, message: Message) -> (p: MessageParams)
        ensures
            p == (MessageParams { message, ..self }),
    {
        MessageParams { message, ..self }
    }

    /// The same parameters with an embed of their own, or none.
    pub fn with_embed(self, embed: Option<CreateEmbed>) -> (p: MessageParams)
        ensures
            p == (MessageParams { embed, ..self }),
    {
        MessageParams { embed, ..self }
    }

    /// The parameters for a message: the defaults, with the message and its colour.
    pub fn from_message(message: Message) -> (p: MessageParams)
        ensures
            p.as_embed,
            !p.ephemeral,
            !p.reply,
            p.color.0 == message_colour(message),
            p.message == message,
            p.embed is None,
    {
        let color = message.colour();
        MessageParams::new(message).with_color(color)
    }
}

/// What is sent for a set of message parameters.
#[derive(Clone, Debug)]
pub struct Reply {
    pub embed: Option<CreateEmbed>,
    pub content: Option<String>,
    pub reply: bool,
    pub ephemeral: bool,
}

/// Builds what is sent for the parameters: as an embed, the parameters' own
/// embed or else one with the message text as description in the chosen
/// colour; otherwise the message text as plain content.
pub fn build_reply(params: MessageParams) -> (r: Reply)
    ensures
        r.reply == params.reply,
        r.ephemeral == params.ephemeral,
        params.as_embed ==> {
            &&& r.content is None
            &&& match params.embed {
                Some(e) => r.embed == Some(e),
                None => r.embed matches Some(e) && e@ == (EmbedView {
                    description: Some(message_text(params.message)),
                    colour: Some(params.color.0),
                    ..empty_embed()
                }),
            }
        },
        !params.as_embed ==> {
            &&& r.embed is None
            &&& r.content matches Some(c) && c@ == message_text(params.message)
        },
{
    let text = params.message.to_string();
    if params.as_embed {
        let embed = match params.embed {
            Some(e) => e,
            None => {
                let mut e = CreateEmbed::new();
                e.description = Some(text);
                e.colour = Some(params.color);
                e
            },
        };
        Reply { embed: Some(embed), content: None, reply: params.reply, ephemeral: params.ephemeral }
    } else {
        Reply { embed: None, content: Some(text), reply: params.reply, ephemeral: params.ephemeral }
    }
}

} // verus!
