use meibe_bot::messages::common::{error_embed, success_embed};
use meibe_bot::messages::message::{build_reply, Colour, CreateEmbed, EmbedField, Message, MessageParams};

#[test]
fn message_texts() {
    assert_eq!(Message::Success("done".to_string()).to_string(), "✅ **done**");
    assert_eq!(Message::Error("bad".to_string()).to_string(), "❗ **bad**");
    assert_eq!(Message::Other("plain".to_string()).to_string(), "plain");
    assert_eq!(Message::Embed(CreateEmbed::new()).to_string(), "Empty");
}

#[test]
fn message_colours() {
    assert_eq!(Message::Error("x".to_string()).colour(), Colour(0xE74C3C));
    assert_eq!(Message::Success("x".to_string()).colour(), Colour(0x1F8B4C));
    assert_eq!(Message::Other("x".to_string()).colour(), Colour(0x3498DB));
    assert_eq!(Colour::meibe_pink(), Colour(0xE68397));
}

#[test]
fn default_params() {
    let p = MessageParams::default();
    assert!(p.as_embed);
    assert!(!p.ephemeral);
    assert!(!p.reply);
    assert_eq!(p.color, Colour::blue());
    assert_eq!(p.message.to_string(), "");
    assert!(p.embed.is_none());
}

#[test]
fn builders_change_one_thing() {
    let p = MessageParams::new(Message::Other("hi".to_string()))
        .with_as_embed(false)
        .with_ephemeral(true)
        .with_reply(true)
        .with_color(Colour::red());
    assert!(!p.as_embed);
    assert!(p.ephemeral);
    assert!(p.reply);
    assert_eq!(p.color, Colour(0xE74C3C));
    assert_eq!(p.message.to_string(), "hi");
    let p = p.with_msg(Message::Success("ok".to_string())).with_embed(Some(CreateEmbed::new()));
    assert_eq!(p.message.to_string(), "✅ **ok**");
    assert!(p.embed.is_some());
}

#[test]
fn params_from_message_take_its_colour() {
    let p = MessageParams::from_message(Message::Error("no".to_string()));
    assert_eq!(p.color, Colour::red());
    assert!(p.as_embed);
    assert!(!p.reply);
}

#[test]
fn reply_as_embed_uses_text_and_colour() {
    let p = MessageParams::from_message(Message::Success("yay".to_string())).with_reply(true);
    let r = build_reply(p);
    assert!(r.reply);
    assert!(!r.ephemeral);
    assert!(r.content.is_none());
    let e = r.embed.unwrap();
    assert_eq!(e.description.as_deref(), Some("✅ **yay**"));
    assert_eq!(e.colour, Some(Colour::dark_green()));
}

#[test]
fn reply_with_own_embed_keeps_it() {
    let mut own = CreateEmbed::new();
    own.title = Some("mine".to_string());
    let p = MessageParams::default().with_embed(Some(own));
    let r = build_reply(p);
    let e = r.embed.unwrap();
    assert_eq!(e.title.as_deref(), Some("mine"));
    assert!(e.description.is_none());
}

#[test]
fn reply_as_plain_content() {
    let p = MessageParams::new(Message::Error("oops".to_string())).with_as_embed(false).with_ephemeral(true);
    let r = build_reply(p);
    assert!(r.embed.is_none());
    assert_eq!(r.content.as_deref(), Some("❗ **oops**"));
    assert!(r.ephemeral);
}

#[test]
fn message_as_embed() {
    let e = Message::Error("broken".to_string()).into_embed();
    assert_eq!(e.description.as_deref(), Some("❗ **broken**"));
    assert_eq!(e.colour, Some(Colour::red()));
    assert!(e.fields.is_empty());
}

#[test]
fn notices() {
    let e = error_embed("Must provide a valid URL");
    assert_eq!(e.description.as_deref(), Some("❗ **Must provide a valid URL**"));
    assert_eq!(e.colour, Some(Colour::red()));
    let s = success_embed("Bye bye senpai");
    assert_eq!(s.description.as_deref(), Some("✅ **Bye bye senpai**"));
    assert_eq!(s.colour, Some(Colour::dark_green()));
}

#[test]
fn embed_push_field_appends() {
    let mut e = CreateEmbed::new();
    e.push_field(EmbedField::new("a", "1".to_string()));
    e.push_field(EmbedField::new("b", "2".to_string()));
    assert_eq!(e.fields.len(), 2);
    assert_eq!(e.fields[1].name, "b");
    assert_eq!(e.fields[1].value, "2");
    assert!(!e.fields[0].inline);
}
