//! The argument model of the post operation and the construction of its wire
//! payload.
//!
//! The payload is a JSON object. Every optional field that is unset is left
//! out of the object entirely: no key, no `null` placeholder. The payload's
//! members are pinned by [`payload_pairs`], so both the produced bytes and
//! the set of keys that appear are exact consequences of the argument value.

use vstd::prelude::*;

use crate::errors::{msg_payload_required, SlackApiError};
use crate::json::{
    bool_bytes, int_bytes, joined, obj_bytes, pairs_view, push_bool, push_int, push_items,
    push_object, push_string, render_items, string_bytes, JsonValue, COMMA, LBRACKET, RBRACKET,
};

verus! {

/// Arguments of the message-post operation.
///
/// At least one of `text`, `blocks` and `attachments` must be set before the
/// payload can be built; that is checked by [`post_message_payload`], not by
/// the type itself.
#[derive(Debug)]
pub struct ChatPostMessageArguments {
    /// Channel, private group, or IM channel to send the message to.
    pub channel: String,
    /// Text of the message to send.
    pub text: Option<String>,
    /// Structured blocks of the message to send.
    pub blocks: Option<Vec<JsonValue>>,
    /// Structured attachments of the message.
    pub attachments: Option<Vec<ChatPostMessageAttachment>>,
    /// Emoji to use as the icon for this message. Overrides `icon_url`.
    pub icon_emoji: Option<String>,
    /// URL to an image to use as the icon for this message.
    pub icon_url: Option<String>,
    /// Find and link user groups.
    pub link_names: Option<bool>,
    /// Structured metadata attached to the message.
    pub metadata: Option<Vec<JsonValue>>,
    /// Disable markup parsing by setting to false. Enabled by default.
    pub mrkdwn: Option<bool>,
    /// Change how messages are treated.
    pub parse: Option<String>,
    /// Whether a threaded reply should be visible to the whole conversation.
    pub reply_broadcast: Option<bool>,
    /// Another message's `ts` value to reply to.
    pub thread_ts: Option<String>,
    /// The bot's user name.
    pub username: Option<String>,
}

/// Attachment to a message. Every field is optional.
#[derive(Debug)]
pub struct ChatPostMessageAttachment {
    pub fallback: Option<String>,
    pub color: Option<String>,
    pub pretext: Option<String>,
    pub author_name: Option<String>,
    pub author_link: Option<String>,
    pub author_icon: Option<String>,
    pub title: Option<String>,
    pub title_link: Option<String>,
    pub text: Option<String>,
    pub fields: Option<Vec<ChatPostMessageField>>,
    pub image_url: Option<String>,
    pub thumb_url: Option<String>,
    pub footer: Option<String>,
    pub footer_icon: Option<String>,
    pub ts: Option<i64>,
}

/// One row of an attachment's field table. All members are required.
#[derive(Debug)]
pub struct ChatPostMessageField {
    pub title: String,
    pub value: String,
    pub short: bool,
}

impl Default for ChatPostMessageArguments {
    /// Arguments with an empty channel and every optional field unset.
    fn default() -> (r: Self)
        ensures
            r.channel@ == Seq::<char>::empty(),
            r.text is None,
            r.blocks is None,
            r.attachments is None,
            r.icon_emoji is None,
            r.icon_url is None,
            r.link_names is None,
            r.metadata is None,
            r.mrkdwn is None,
            r.parse is None,
            r.reply_broadcast is None,
            r.thread_ts is None,
            r.username is None,
    {
        ChatPostMessageArguments {
            channel: String::new(),
            text: None,
            blocks: None,
            attachments: None,
            icon_emoji: None,
            icon_url: None,
            link_names: None,
            metadata: None,
            mrkdwn: None,
            parse: None,
            reply_broadcast: None,
            thread_ts: None,
            username: None,
        }
    }
}

impl ChatPostMessageArguments {
    /// Arguments carrying only a channel and a message text, as the
    /// text-only convenience operation builds them.
    pub fn text_only(channel: String, text: String) -> (r: Self)
        ensures
            r.channel == channel,
            r.text == Some(text),
            r.blocks is None,
            r.attachments is None,
            r.icon_emoji is None,
            r.icon_url is None,
            r.link_names is None,
            r.metadata is None,
            r.mrkdwn is None,
            r.parse is None,
            r.reply_broadcast is None,
            r.thread_ts is None,
            r.username is None,
    {
        ChatPostMessageArguments {
            channel,
            text: Some(text),
            blocks: None,
            attachments: None,
            icon_emoji: None,
            icon_url: None,
            link_names: None,
            metadata: None,
            mrkdwn: None,
            parse: None,
            reply_broadcast: None,
            thread_ts: None,
            username: None,
        }
    }
}

impl Default for ChatPostMessageAttachment {
    /// An attachment with every field unset.
    fn default() -> (r: Self)
        ensures
            r.fallback is None,
            r.color is None,
            r.pretext is None,
            r.author_name is None,
            r.author_link is None,
            r.author_icon is None,
            r.title is None,
            r.title_link is None,
            r.text is None,
            r.fields is None,
            r.image_url is None,
            r.thumb_url is None,
            r.footer is None,
            r.footer_icon is None,
            r.ts is None,
    {
        ChatPostMessageAttachment {
            fallback: None,
            color: None,
            pretext: None,
            author_name: None,
            author_link: None,
            author_icon: None,
            title: None,
            title_link: None,
            text: None,
            fields: None,
            image_url: None,
            thumb_url: None,
            footer: None,
            footer_icon: None,
            ts: None,
        }
    }
}

/// The member a set optional string field contributes, or nothing.
pub open spec fn opt_string_pair(key: Seq<char>, v: Option<String>) -> Seq<(Seq<char>, Seq<u8>)> {
    match v {
        Some(s) => seq![(key, string_bytes(s@))],
        None => Seq::empty(),
    }
}

/// The member a set optional boolean field contributes, or nothing.
pub open spec fn opt_bool_pair(key: Seq<char>, v: Option<bool>) -> Seq<(Seq<char>, Seq<u8>)> {
    match v {
        Some(b) => seq![(key, bool_bytes(b))],
        None => Seq::empty(),
    }
}

/// The member a set optional integer field contributes, or nothing.
pub open spec fn opt_int_pair(key: Seq<char>, v: Option<i64>) -> Seq<(Seq<char>, Seq<u8>)> {
    match v {
        Some(i) => seq![(key, int_bytes(i as int))],
        None => Seq::empty(),
    }
}

/// The member a set optional list of JSON values contributes, or nothing.
pub open spec fn opt_values_pair(key: Seq<char>, v: Option<Vec<JsonValue>>) -> Seq<
    (Seq<char>, Seq<u8>),
> {
    match v {
        Some(elems) => seq![(key, seq![LBRACKET] + render_items(elems@) + seq![RBRACKET])],
        None => Seq::empty(),
    }
}

/// The serialized form of one field row: an object of its three members.
pub open spec fn field_bytes(f: ChatPostMessageField) -> Seq<u8> {
    obj_bytes(
        seq![
            ("title"@, string_bytes(f.title@)),
            ("value"@, string_bytes(f.value@)),
            ("short"@, bool_bytes(f.short)),
        ],
    )
}

/// The member a set optional field table contributes, or nothing.
pub open spec fn opt_fields_pair(key: Seq<char>, v: Option<Vec<ChatPostMessageField>>) -> Seq<
    (Seq<char>, Seq<u8>),
> {
    match v {
        Some(fs) => seq![
            (
                key,
                seq![LBRACKET] + joined(
                    fs@.map(|i: int, f: ChatPostMessageField| field_bytes(f)),
                ) + seq![RBRACKET],
            ),
        ],
        None => Seq::empty(),
    }
}

/// The leading members of a serialized attachment: how the message presents
/// itself, from `fallback` through `title_link`.
pub open spec fn att_pairs_lead(a: ChatPostMessageAttachment) -> Seq<(Seq<char>, Seq<u8>)> {
    opt_string_pair("fallback"@, a.fallback) + opt_string_pair("color"@, a.color)
        + opt_string_pair("pretext"@, a.pretext) + opt_string_pair("author_name"@, a.author_name)
        + opt_string_pair("author_link"@, a.author_link) + opt_string_pair(
        "author_icon"@,
        a.author_icon,
    ) + opt_string_pair("title"@, a.title) + opt_string_pair("title_link"@, a.title_link)
}

/// The trailing members of a serialized attachment: its body and footer,
/// from `text` through `ts`.
pub open spec fn att_pairs_rest(a: ChatPostMessageAttachment) -> Seq<(Seq<char>, Seq<u8>)> {
    opt_string_pair("text"@, a.text) + opt_fields_pair("fields"@, a.fields) + opt_string_pair(
        "image_url"@,
        a.image_url,
    ) + opt_string_pair("thumb_url"@, a.thumb_url) + opt_string_pair("footer"@, a.footer)
        + opt_string_pair("footer_icon"@, a.footer_icon) + opt_int_pair("ts"@, a.ts)
}

/// The members of a serialized attachment, in order: exactly its set fields.
pub open spec fn att_pairs(a: ChatPostMessageAttachment) -> Seq<(Seq<char>, Seq<u8>)> {
    att_pairs_lead(a) + att_pairs_rest(a)
}

/// The serialized form of one attachment: an object of its set fields.
pub open spec fn att_bytes(a: ChatPostMessageAttachment) -> Seq<u8> {
    obj_bytes(att_pairs(a))
}

/// The member a set optional attachment list contributes, or nothing.
pub open spec fn opt_attachments_pair(
    key: Seq<char>,
    v: Option<Vec<ChatPostMessageAttachment>>,
) -> Seq<(Seq<char>, Seq<u8>)> {
    match v {
        Some(atts) => seq![
            (
                key,
                seq![LBRACKET] + joined(
                    atts@.map(|i: int, a: ChatPostMessageAttachment| att_bytes(a)),
                ) + seq![RBRACKET],
            ),
        ],
        None => Seq::empty(),
    }
}

/// The members of the post payload, in order: the channel, then exactly the
/// optional fields that are set.
pub open spec fn payload_pairs(a: ChatPostMessageArguments) -> Seq<(Seq<char>, Seq<u8>)> {
    seq![("channel"@, string_bytes(a.channel@))] + opt_string_pair("text"@, a.text)
        + opt_values_pair("blocks"@, a.blocks) + opt_attachments_pair("attachments"@, a.attachments)
        + opt_string_pair("icon_emoji"@, a.icon_emoji) + opt_string_pair("icon_url"@, a.icon_url)
        + opt_bool_pair("link_names"@, a.link_names) + opt_values_pair("metadata"@, a.metadata)
        + opt_bool_pair("mrkdwn"@, a.mrkdwn) + opt_string_pair("parse"@, a.parse) + opt_bool_pair(
        "reply_broadcast"@,
        a.reply_broadcast,
    ) + opt_string_pair("thread_ts"@, a.thread_ts) + opt_string_pair("username"@, a.username)
}

/// Whether a member list carries the given key.
pub open spec fn has_key(s: Seq<(Seq<char>, Seq<u8>)>, k: Seq<char>) -> bool {
    exists|i: int| 0 <= i < s.len() && s[i].0 == k
}

/// Whether the serialized post payload carries the given key.
pub open spec fn payload_has_key(a: ChatPostMessageArguments, k: Seq<char>) -> bool {
    has_key(payload_pairs(a), k)
}

/// The full serialized post payload: one JSON object.
pub open spec fn payload_bytes(a: ChatPostMessageArguments) -> Seq<u8> {
    obj_bytes(payload_pairs(a))
}

/// Whether none of the three payload-bearing fields is set, which makes the
/// arguments invalid.
pub open spec fn missing_payload(a: ChatPostMessageArguments) -> bool {
    a.text is None && a.attachments is None && a.blocks is None
}

/// The serialized form of a string, as an owned byte vector.
fn string_value(s: &str) -> (r: Vec<u8>)
    ensures
        r@ == string_bytes(s@),
{
    let mut out: Vec<u8> = Vec::new();
    push_string(&mut out, s);
    out
}

/// Appends the member of a set optional string field; appends nothing for an
/// unset one.
fn push_opt_string<'a>(pairs: &mut Vec<(&'a str, Vec<u8>)>, key: &'a str, v: &Option<String>)
    ensures
        pairs_view(final(pairs)@) == pairs_view(old(pairs)@) + opt_string_pair(key@, *v),
{
    if let Some(s) = v {
        let val: Vec<u8> = string_value(s.as_str());
        pairs.push((key, val));
    }
    assert(pairs_view(pairs@) =~= pairs_view(old(pairs)@) + opt_string_pair(key@, *v));
}

/// Appends the member of a set optional boolean field; appends nothing for an
/// unset one.
fn push_opt_bool<'a>(pairs: &mut Vec<(&'a str, Vec<u8>)>, key: &'a str, v: &Option<bool>)
    ensures
        pairs_view(final(pairs)@) == pairs_view(old(pairs)@) + opt_bool_pair(key@, *v),
{
    if let Some(b) = v {
        let mut val: Vec<u8> = Vec::new();
        push_bool(&mut val, *b);
        pairs.push((key, val));
    }
    assert(pairs_view(pairs@) =~= pairs_view(old(pairs)@) + opt_bool_pair(key@, *v));
}

/// Appends the member of a set optional integer field; appends nothing for an
/// unset one.
fn push_opt_int<'a>(pairs: &mut Vec<(&'a str, Vec<u8>)>, key: &'a str, v: &Option<i64>)
    ensures
        pairs_view(final(pairs)@) == pairs_view(old(pairs)@) + opt_int_pair(key@, *v),
{
    if let Some(i) = v {
        let mut val: Vec<u8> = Vec::new();
        push_int(&mut val, *i);
        pairs.push((key, val));
    }
    assert(pairs_view(pairs@) =~= pairs_view(old(pairs)@) + opt_int_pair(key@, *v));
}

/// Appends the member of a set optional list of JSON values; appends nothing
/// for an unset one.
fn push_opt_values<'a>(pairs: &mut Vec<(&'a str, Vec<u8>)>, key: &'a str, v: &Option<
    Vec<JsonValue>,
>)
    ensures
        pairs_view(final(pairs)@) == pairs_view(old(pairs)@) + opt_values_pair(key@, *v),
{
    if let Some(elems) = v {
        let mut val: Vec<u8> = Vec::new();
        val.push(LBRACKET);
        push_items(&mut val, elems);
        val.push(RBRACKET);
        assert(val@ =~= seq![LBRACKET] + render_items(elems@) + seq![RBRACKET]);
        pairs.push((key, val));
    }
    assert(pairs_view(pairs@) =~= pairs_view(old(pairs)@) + opt_values_pair(key@, *v));
}

/// The serialized form of one field row, as an owned byte vector.
fn render_field(f: &ChatPostMessageField) -> (r: Vec<u8>)
    ensures
        r@ == field_bytes(*f),
{
    let mut pairs: Vec<(&str, Vec<u8>)> = Vec::new();
    pairs.push(("title", string_value(f.title.as_str())));
    pairs.push(("value", string_value(f.value.as_str())));
    let mut short_val: Vec<u8> = Vec::new();
    push_bool(&mut short_val, f.short);
    pairs.push(("short", short_val));
    assert(pairs_view(pairs@) =~= seq![
        ("title"@, string_bytes(f.title@)),
        ("value"@, string_bytes(f.value@)),
        ("short"@, bool_bytes(f.short)),
    ]);
    let mut out: Vec<u8> = Vec::new();
    push_object(&mut out, &pairs);
    out
}

/// Appends the member of a set optional field table; appends nothing for an
/// unset one.
fn push_opt_fields<'a>(pairs: &mut Vec<(&'a str, Vec<u8>)>, key: &'a str, v: &Option<
    Vec<ChatPostMessageField>,
>)
    ensures
        pairs_view(final(pairs)@) == pairs_view(old(pairs)@) + opt_fields_pair(key@, *v),
{
    if let Some(fs) = v {
        let ghost m: Seq<Seq<u8>> = fs@.map(|i: int, f: ChatPostMessageField| field_bytes(f));
        let mut val: Vec<u8> = Vec::new();
        val.push(LBRACKET);
        let n: usize = fs.len();
        for i in 0..n
            invariant
                n == fs@.len(),
                m == fs@.map(|i: int, f: ChatPostMessageField| field_bytes(f)),
                val@ == seq![LBRACKET] + joined(m.take(i as int)),
        {
            if i > 0 {
                val.push(COMMA);
            }
            let mut r: Vec<u8> = render_field(&fs[i]);
            val.append(&mut r);
            assert(m.take(i + 1).drop_last() =~= m.take(i as int));
            assert(m.take(i + 1).last() == field_bytes(fs@[i as int]));
            assert(val@ =~= seq![LBRACKET] + joined(m.take(i + 1)));
        }
        assert(m.take(n as int) =~= m);
        val.push(RBRACKET);
        assert(val@ =~= seq![LBRACKET] + joined(m) + seq![RBRACKET]);
        pairs.push((key, val));
    }
    assert(pairs_view(pairs@) =~= pairs_view(old(pairs)@) + opt_fields_pair(key@, *v));
}

/// Appends the leading members of an attachment, `fallback` through
/// `title_link`.
fn push_attachment_lead<'a>(pairs: &mut Vec<(&'a str, Vec<u8>)>, a: &'a ChatPostMessageAttachment)
    ensures
        pairs_view(final(pairs)@) == pairs_view(old(pairs)@) + att_pairs_lead(*a),
{
    push_opt_string(pairs, "fallback", &a.fallback);
    push_opt_string(pairs, "color", &a.color);
    push_opt_string(pairs, "pretext", &a.pretext);
    push_opt_string(pairs, "author_name", &a.author_name);
    push_opt_string(pairs, "author_link", &a.author_link);
    push_opt_string(pairs, "author_icon", &a.author_icon);
    push_opt_string(pairs, "title", &a.title);
    push_opt_string(pairs, "title_link", &a.title_link);
    assert(pairs_view(pairs@) =~= pairs_view(old(pairs)@) + att_pairs_lead(*a));
}

/// Appends the trailing members of an attachment, `text` through `ts`.
fn push_attachment_rest<'a>(pairs: &mut Vec<(&'a str, Vec<u8>)>, a: &'a ChatPostMessageAttachment)
    ensures
        pairs_view(final(pairs)@) == pairs_view(old(pairs)@) + att_pairs_rest(*a),
{
    push_opt_string(pairs, "text", &a.text);
    push_opt_fields(pairs, "fields", &a.fields);
    push_opt_string(pairs, "image_url", &a.image_url);
    push_opt_string(pairs, "thumb_url", &a.thumb_url);
    push_opt_string(pairs, "footer", &a.footer);
    push_opt_string(pairs, "footer_icon", &a.footer_icon);
    push_opt_int(pairs, "ts", &a.ts);
    assert(pairs_view(pairs@) =~= pairs_view(old(pairs)@) + att_pairs_rest(*a));
}

/// The serialized form of one attachment, as an owned byte vector: an object
/// holding exactly the attachment's set fields.
fn render_attachment(a: &ChatPostMessageAttachment) -> (r: Vec<u8>)
    ensures
        r@ == att_bytes(*a),
{
    let mut pairs: Vec<(&str, Vec<u8>)> = Vec::new();
    assert(pairs_view(pairs@) =~= Seq::<(Seq<char>, Seq<u8>)>::empty());
    push_attachment_lead(&mut pairs, a);
    push_attachment_rest(&mut pairs, a);
    assert(pairs_view(pairs@) =~= att_pairs(*a));
    let mut out: Vec<u8> = Vec::new();
    push_object(&mut out, &pairs);
    out
}

/// Appends the member of a set optional attachment list; appends nothing for
/// an unset one.
#[verifier::rlimit(60)]
fn push_opt_attachments<'a>(pairs: &mut Vec<(&'a str, Vec<u8>)>, key: &'a str, v: &Option<
    Vec<ChatPostMessageAttachment>,
>)
    ensures
        pairs_view(final(pairs)@) == pairs_view(old(pairs)@) + opt_attachments_pair(key@, *v),
{
    if let Some(atts) = v {
        let ghost m: Seq<Seq<u8>> = atts@.map(
            |i: int, a: ChatPostMessageAttachment| att_bytes(a),
        );
        let mut val: Vec<u8> = Vec::new();
        val.push(LBRACKET);
        let n: usize = atts.len();
        for i in 0..n
            invariant
                n == atts@.len(),
                m == atts@.map(|i: int, a: ChatPostMessageAttachment| att_bytes(a)),
                val@ == seq![LBRACKET] + joined(m.take(i as int)),
        {
            if i > 0 {
                val.push(COMMA);
            }
            let mut r: Vec<u8> = render_attachment(&atts[i]);
            val.append(&mut r);
            assert(m.take(i + 1).drop_last() =~= m.take(i as int));
            assert(m.take(i + 1).last() == att_bytes(atts@[i as int]));
            assert(val@ =~= seq![LBRACKET] + joined(m.take(i + 1)));
        }
        assert(m.take(n as int) =~= m);
        val.push(RBRACKET);
        assert(val@ =~= seq![LBRACKET] + joined(m) + seq![RBRACKET]);
        pairs.push((key, val));
    }
    assert(pairs_view(pairs@) =~= pairs_view(old(pairs)@) + opt_attachments_pair(key@, *v));
}

/// Builds the wire payload of a post: checks that at least one of `text`,
/// `blocks` and `attachments` is set, then serializes the arguments to one
/// JSON object in which every unset optional field is wholly absent.
///
/// The check runs before anything is serialized; an invalid argument value
/// never produces a payload, so no request can be dispatched for it.
pub fn post_message_payload(a: &ChatPostMessageArguments) -> (r: Result<Vec<u8>, SlackApiError>)
    ensures
        missing_payload(*a) ==> (r matches Err(SlackApiError::InvalidArgument(m)) && m@
            == msg_payload_required()),
        !missing_payload(*a) ==> (r matches Ok(body) && body@ == payload_bytes(*a)),
{
    if a.text.is_none() && a.attachments.is_none() && a.blocks.is_none() {
        return Err(
            SlackApiError::InvalidArgument("text, attachments, or blocks is required".to_owned()),
        );
    }
    let mut pairs: Vec<(&str, Vec<u8>)> = Vec::new();
    assert(pairs_view(pairs@) =~= Seq::<(Seq<char>, Seq<u8>)>::empty());
    pairs.push(("channel", string_value(a.channel.as_str())));
    assert(pairs_view(pairs@) =~= seq![("channel"@, string_bytes(a.channel@))]);
    push_opt_string(&mut pairs, "text", &a.text);
    push_opt_values(&mut pairs, "blocks", &a.blocks);
    push_opt_attachments(&mut pairs, "attachments", &a.attachments);
    push_opt_string(&mut pairs, "icon_emoji", &a.icon_emoji);
    push_opt_string(&mut pairs, "icon_url", &a.icon_url);
    push_opt_bool(&mut pairs, "link_names", &a.link_names);
    push_opt_values(&mut pairs, "metadata", &a.metadata);
    push_opt_bool(&mut pairs, "mrkdwn", &a.mrkdwn);
    push_opt_string(&mut pairs, "parse", &a.parse);
    push_opt_bool(&mut pairs, "reply_broadcast", &a.reply_broadcast);
    push_opt_string(&mut pairs, "thread_ts", &a.thread_ts);
    push_opt_string(&mut pairs, "username", &a.username);
    assert(pairs_view(pairs@) =~= payload_pairs(*a));
    let mut out: Vec<u8> = Vec::new();
    push_object(&mut out, &pairs);
    Ok(out)
}

proof fn lemma_key_in_add(x: Seq<(Seq<char>, Seq<u8>)>, y: Seq<(Seq<char>, Seq<u8>)>, k: Seq<char>)
    ensures
        has_key(x + y, k) <==> has_key(x, k) || has_key(y, k),
{
    if has_key(x, k) {
        let i: int = choose|i: int| 0 <= i < x.len() && x[i].0 == k;
        assert((x + y)[i].0 == k);
    }
    if has_key(y, k) {
        let i: int = choose|i: int| 0 <= i < y.len() && y[i].0 == k;
        assert((x + y)[x.len() + i].0 == k);
    }
    if has_key(x + y, k) {
        let i: int = choose|i: int| 0 <= i < (x + y).len() && (x + y)[i].0 == k;
        if i < x.len() {
            assert(x[i].0 == k);
        } else {
            assert(y[i - x.len()].0 == k);
        }
    }
}

proof fn lemma_key_in_opt(s: Seq<(Seq<char>, Seq<u8>)>, key: Seq<char>, present: bool, k: Seq<
    char,
>)
    requires
        present ==> s.len() == 1 && s[0].0 == key,
        !present ==> s.len() == 0,
    ensures
        has_key(s, k) <==> (present && key == k),
{
    if present && key == k {
        assert(s[0].0 == k);
    }
}

#[verifier::rlimit(80)]
/// Which keys the serialized post payload carries: `channel` always, and
/// each optional key exactly when its field is set.
pub proof fn lemma_payload_keys(a: ChatPostMessageArguments, k: Seq<char>)
    ensures
        payload_has_key(a, k) <==> ("channel"@ == k || (a.text is Some && "text"@ == k) || (
        a.blocks is Some && "blocks"@ == k) || (a.attachments is Some && "attachments"@ == k) || (
        a.icon_emoji is Some && "icon_emoji"@ == k) || (a.icon_url is Some && "icon_url"@ == k) || (
        a.link_names is Some && "link_names"@ == k) || (a.metadata is Some && "metadata"@ == k) || (
        a.mrkdwn is Some && "mrkdwn"@ == k) || (a.parse is Some && "parse"@ == k) || (
        a.reply_broadcast is Some && "reply_broadcast"@ == k) || (a.thread_ts is Some && "thread_ts"@
            == k) || (a.username is Some && "username"@ == k)),
{
    let s1 = seq![("channel"@, string_bytes(a.channel@))];
    let s2 = opt_string_pair("text"@, a.text);
    let s3 = opt_values_pair("blocks"@, a.blocks);
    let s4 = opt_attachments_pair("attachments"@, a.attachments);
    let s5 = opt_string_pair("icon_emoji"@, a.icon_emoji);
    let s6 = opt_string_pair("icon_url"@, a.icon_url);
    let s7 = opt_bool_pair("link_names"@, a.link_names);
    let s8 = opt_values_pair("metadata"@, a.metadata);
    let s9 = opt_bool_pair("mrkdwn"@, a.mrkdwn);
    let s10 = opt_string_pair("parse"@, a.parse);
    let s11 = opt_bool_pair("reply_broadcast"@, a.reply_broadcast);
    let s12 = opt_string_pair("thread_ts"@, a.thread_ts);
    let s13 = opt_string_pair("username"@, a.username);
    let t2 = s1 + s2;
    let t3 = t2 + s3;
    let t4 = t3 + s4;
    let t5 = t4 + s5;
    let t6 = t5 + s6;
    let t7 = t6 + s7;
    let t8 = t7 + s8;
    let t9 = t8 + s9;
    let t10 = t9 + s10;
    let t11 = t10 + s11;
    let t12 = t11 + s12;
    let t13 = t12 + s13;
    lemma_key_in_add(s1, s2, k);
    lemma_key_in_add(t2, s3, k);
    lemma_key_in_add(t3, s4, k);
    lemma_key_in_add(t4, s5, k);
    lemma_key_in_add(t5, s6, k);
    lemma_key_in_add(t6, s7, k);
    lemma_key_in_add(t7, s8, k);
    lemma_key_in_add(t8, s9, k);
    lemma_key_in_add(t9, s10, k);
    lemma_key_in_add(t10, s11, k);
    lemma_key_in_add(t11, s12, k);
    lemma_key_in_add(t12, s13, k);
    lemma_key_in_opt(s1, "channel"@, true, k);
    lemma_key_in_opt(s2, "text"@, a.text is Some, k);
    lemma_key_in_opt(s3, "blocks"@, a.blocks is Some, k);
    lemma_key_in_opt(s4, "attachments"@, a.attachments is Some, k);
    lemma_key_in_opt(s5, "icon_emoji"@, a.icon_emoji is Some, k);
    lemma_key_in_opt(s6, "icon_url"@, a.icon_url is Some, k);
    lemma_key_in_opt(s7, "link_names"@, a.link_names is Some, k);
    lemma_key_in_opt(s8, "metadata"@, a.metadata is Some, k);
    lemma_key_in_opt(s9, "mrkdwn"@, a.mrkdwn is Some, k);
    lemma_key_in_opt(s10, "parse"@, a.parse is Some, k);
    lemma_key_in_opt(s11, "reply_broadcast"@, a.reply_broadcast is Some, k);
    lemma_key_in_opt(s12, "thread_ts"@, a.thread_ts is Some, k);
    lemma_key_in_opt(s13, "username"@, a.username is Some, k);
    assert(payload_pairs(a) == t13);
}

/// Enough of the key literals to tell any two of them apart: every length,
/// and a first character wherever two keys share a length.
proof fn lemma_key_facts()
    ensures
        "channel"@.len() == 7,
        "text"@.len() == 4,
        "blocks"@.len() == 6,
        "attachments"@.len() == 11,
        "icon_emoji"@.len() == 10,
        "icon_url"@.len() == 8,
        "link_names"@.len() == 10,
        "metadata"@.len() == 8,
        "mrkdwn"@.len() == 6,
        "parse"@.len() == 5,
        "reply_broadcast"@.len() == 15,
        "thread_ts"@.len() == 9,
        "username"@.len() == 8,
        "blocks"@[0] == 'b',
        "mrkdwn"@[0] == 'm',
        "icon_emoji"@[0] == 'i',
        "link_names"@[0] == 'l',
        "icon_url"@[0] == 'i',
        "metadata"@[0] == 'm',
        "username"@[0] == 'u',
{
    reveal_strlit("channel");
    reveal_strlit("text");
    reveal_strlit("blocks");
    reveal_strlit("attachments");
    reveal_strlit("icon_emoji");
    reveal_strlit("icon_url");
    reveal_strlit("link_names");
    reveal_strlit("metadata");
    reveal_strlit("mrkdwn");
    reveal_strlit("parse");
    reveal_strlit("reply_broadcast");
    reveal_strlit("thread_ts");
    reveal_strlit("username");
}

/// No unset optional field leaves any trace in the payload: its key is
/// wholly absent from the serialized object, rather than present with a
/// `null` value.
#[verifier::rlimit(100)]
pub proof fn lemma_omitted_fields_have_no_key(a: ChatPostMessageArguments)
    ensures
        a.text is None ==> !payload_has_key(a, "text"@),
        a.blocks is None ==> !payload_has_key(a, "blocks"@),
        a.attachments is None ==> !payload_has_key(a, "attachments"@),
        a.icon_emoji is None ==> !payload_has_key(a, "icon_emoji"@),
        a.icon_url is None ==> !payload_has_key(a, "icon_url"@),
        a.link_names is None ==> !payload_has_key(a, "link_names"@),
        a.metadata is None ==> !payload_has_key(a, "metadata"@),
        a.mrkdwn is None ==> !payload_has_key(a, "mrkdwn"@),
        a.parse is None ==> !payload_has_key(a, "parse"@),
        a.reply_broadcast is None ==> !payload_has_key(a, "reply_broadcast"@),
        a.thread_ts is None ==> !payload_has_key(a, "thread_ts"@),
        a.username is None ==> !payload_has_key(a, "username"@),
{
    assert(a.text is None ==> !payload_has_key(a, "text"@)) by {
        lemma_key_facts();
        lemma_payload_keys(a, "text"@);
    }
    assert(a.blocks is None ==> !payload_has_key(a, "blocks"@)) by {
        lemma_key_facts();
        lemma_payload_keys(a, "blocks"@);
    }
    assert(a.attachments is None ==> !payload_has_key(a, "attachments"@)) by {
        lemma_key_facts();
        lemma_payload_keys(a, "attachments"@);
    }
    assert(a.icon_emoji is None ==> !payload_has_key(a, "icon_emoji"@)) by {
        lemma_key_facts();
        lemma_payload_keys(a, "icon_emoji"@);
    }
    assert(a.icon_url is None ==> !payload_has_key(a, "icon_url"@)) by {
        lemma_key_facts();
        lemma_payload_keys(a, "icon_url"@);
    }
    assert(a.link_names is None ==> !payload_has_key(a, "link_names"@)) by {
        lemma_key_facts();
        lemma_payload_keys(a, "link_names"@);
    }
    assert(a.metadata is None ==> !payload_has_key(a, "metadata"@)) by {
        lemma_key_facts();
        lemma_payload_keys(a, "metadata"@);
    }
    assert(a.mrkdwn is None ==> !payload_has_key(a, "mrkdwn"@)) by {
        lemma_key_facts();
        lemma_payload_keys(a, "mrkdwn"@);
    }
    assert(a.parse is None ==> !payload_has_key(a, "parse"@)) by {
        lemma_key_facts();
        lemma_payload_keys(a, "parse"@);
    }
    assert(a.reply_broadcast is None ==> !payload_has_key(a, "reply_broadcast"@)) by {
        lemma_key_facts();
        lemma_payload_keys(a, "reply_broadcast"@);
    }
    assert(a.thread_ts is None ==> !payload_has_key(a, "thread_ts"@)) by {
        lemma_key_facts();
        lemma_payload_keys(a, "thread_ts"@);
    }
    assert(a.username is None ==> !payload_has_key(a, "username"@)) by {
        lemma_key_facts();
        lemma_payload_keys(a, "username"@);
    }
}

/// Whether one serialized attachment object carries the given key.
pub open spec fn att_has_key(a: ChatPostMessageAttachment, k: Seq<char>) -> bool {
    has_key(att_pairs(a), k)
}

/// Which keys the leading members of an attachment carry.
#[verifier::rlimit(80)]
proof fn lemma_attachment_lead_keys(a: ChatPostMessageAttachment, k: Seq<char>)
    ensures
        has_key(att_pairs_lead(a), k) <==> ((a.fallback is Some && "fallback"@ == k) || (
        a.color is Some && "color"@ == k) || (a.pretext is Some && "pretext"@ == k) || (
        a.author_name is Some && "author_name"@ == k) || (a.author_link is Some && "author_link"@
            == k) || (a.author_icon is Some && "author_icon"@ == k) || (a.title is Some && "title"@
            == k) || (a.title_link is Some && "title_link"@ == k)),
{
    let s1 = opt_string_pair("fallback"@, a.fallback);
    let s2 = opt_string_pair("color"@, a.color);
    let s3 = opt_string_pair("pretext"@, a.pretext);
    let s4 = opt_string_pair("author_name"@, a.author_name);
    let s5 = opt_string_pair("author_link"@, a.author_link);
    let s6 = opt_string_pair("author_icon"@, a.author_icon);
    let s7 = opt_string_pair("title"@, a.title);
    let s8 = opt_string_pair("title_link"@, a.title_link);
    let t2 = s1 + s2;
    let t3 = t2 + s3;
    let t4 = t3 + s4;
    let t5 = t4 + s5;
    let t6 = t5 + s6;
    let t7 = t6 + s7;
    let t8 = t7 + s8;
    lemma_key_in_add(s1, s2, k);
    lemma_key_in_add(t2, s3, k);
    lemma_key_in_add(t3, s4, k);
    lemma_key_in_add(t4, s5, k);
    lemma_key_in_add(t5, s6, k);
    lemma_key_in_add(t6, s7, k);
    lemma_key_in_add(t7, s8, k);
    lemma_key_in_opt(s1, "fallback"@, a.fallback is Some, k);
    lemma_key_in_opt(s2, "color"@, a.color is Some, k);
    lemma_key_in_opt(s3, "pretext"@, a.pretext is Some, k);
    lemma_key_in_opt(s4, "author_name"@, a.author_name is Some, k);
    lemma_key_in_opt(s5, "author_link"@, a.author_link is Some, k);
    lemma_key_in_opt(s6, "author_icon"@, a.author_icon is Some, k);
    lemma_key_in_opt(s7, "title"@, a.title is Some, k);
    lemma_key_in_opt(s8, "title_link"@, a.title_link is Some, k);
    assert(att_pairs_lead(a) == t8);
}

/// Which keys the trailing members of an attachment carry.
#[verifier::rlimit(80)]
proof fn lemma_attachment_rest_keys(a: ChatPostMessageAttachment, k: Seq<char>)
    ensures
        has_key(att_pairs_rest(a), k) <==> ((a.text is Some && "text"@ == k) || (a.fields is Some
            && "fields"@ == k) || (a.image_url is Some && "image_url"@ == k) || (
        a.thumb_url is Some && "thumb_url"@ == k) || (a.footer is Some && "footer"@ == k) || (
        a.footer_icon is Some && "footer_icon"@ == k) || (a.ts is Some && "ts"@ == k)),
{
    let s1 = opt_string_pair("text"@, a.text);
    let s2 = opt_fields_pair("fields"@, a.fields);
    let s3 = opt_string_pair("image_url"@, a.image_url);
    let s4 = opt_string_pair("thumb_url"@, a.thumb_url);
    let s5 = opt_string_pair("footer"@, a.footer);
    let s6 = opt_string_pair("footer_icon"@, a.footer_icon);
    let s7 = opt_int_pair("ts"@, a.ts);
    let t2 = s1 + s2;
    let t3 = t2 + s3;
    let t4 = t3 + s4;
    let t5 = t4 + s5;
    let t6 = t5 + s6;
    let t7 = t6 + s7;
    lemma_key_in_add(s1, s2, k);
    lemma_key_in_add(t2, s3, k);
    lemma_key_in_add(t3, s4, k);
    lemma_key_in_add(t4, s5, k);
    lemma_key_in_add(t5, s6, k);
    lemma_key_in_add(t6, s7, k);
    lemma_key_in_opt(s1, "text"@, a.text is Some, k);
    lemma_key_in_opt(s2, "fields"@, a.fields is Some, k);
    lemma_key_in_opt(s3, "image_url"@, a.image_url is Some, k);
    lemma_key_in_opt(s4, "thumb_url"@, a.thumb_url is Some, k);
    lemma_key_in_opt(s5, "footer"@, a.footer is Some, k);
    lemma_key_in_opt(s6, "footer_icon"@, a.footer_icon is Some, k);
    lemma_key_in_opt(s7, "ts"@, a.ts is Some, k);
    assert(att_pairs_rest(a) == t7);
}

/// Which keys one serialized attachment object carries: each key exactly
/// when its field is set.
#[verifier::rlimit(80)]
pub proof fn lemma_attachment_keys(a: ChatPostMessageAttachment, k: Seq<char>)
    ensures
        att_has_key(a, k) <==> ((a.fallback is Some && "fallback"@ == k) || (a.color is Some
            && "color"@ == k) || (a.pretext is Some && "pretext"@ == k) || (a.author_name is Some
            && "author_name"@ == k) || (a.author_link is Some && "author_link"@ == k) || (
        a.author_icon is Some && "author_icon"@ == k) || (a.title is Some && "title"@ == k) || (
        a.title_link is Some && "title_link"@ == k) || (a.text is Some && "text"@ == k) || (
        a.fields is Some && "fields"@ == k) || (a.image_url is Some && "image_url"@ == k) || (
        a.thumb_url is Some && "thumb_url"@ == k) || (a.footer is Some && "footer"@ == k) || (
        a.footer_icon is Some && "footer_icon"@ == k) || (a.ts is Some && "ts"@ == k)),
{
    lemma_key_in_add(att_pairs_lead(a), att_pairs_rest(a), k);
    lemma_attachment_lead_keys(a, k);
    lemma_attachment_rest_keys(a, k);
}

/// Enough of the attachment key literals to tell any two of them apart.
proof fn lemma_att_key_facts()
    ensures
        "fallback"@.len() == 8,
        "color"@.len() == 5,
        "pretext"@.len() == 7,
        "author_name"@.len() == 11,
        "author_link"@.len() == 11,
        "author_icon"@.len() == 11,
        "title"@.len() == 5,
        "title_link"@.len() == 10,
        "text"@.len() == 4,
        "fields"@.len() == 6,
        "image_url"@.len() == 9,
        "thumb_url"@.len() == 9,
        "footer"@.len() == 6,
        "footer_icon"@.len() == 11,
        "ts"@.len() == 2,
        "color"@[0] == 'c',
        "title"@[0] == 't',
        "fields"@[1] == 'i',
        "footer"@[1] == 'o',
        "image_url"@[0] == 'i',
        "thumb_url"@[0] == 't',
        "author_name"@[0] == 'a',
        "author_link"@[0] == 'a',
        "author_icon"@[0] == 'a',
        "footer_icon"@[0] == 'f',
        "author_name"@[7] == 'n',
        "author_link"@[7] == 'l',
        "author_icon"@[7] == 'i',
{
    reveal_strlit("fallback");
    reveal_strlit("color");
    reveal_strlit("pretext");
    reveal_strlit("author_name");
    reveal_strlit("author_link");
    reveal_strlit("author_icon");
    reveal_strlit("title");
    reveal_strlit("title_link");
    reveal_strlit("text");
    reveal_strlit("fields");
    reveal_strlit("image_url");
    reveal_strlit("thumb_url");
    reveal_strlit("footer");
    reveal_strlit("footer_icon");
    reveal_strlit("ts");
}

/// No unset optional field of an attachment leaves any trace in its
/// serialized object: the key is wholly absent, never present with `null`.
#[verifier::rlimit(100)]
pub proof fn lemma_omitted_attachment_fields_have_no_key(a: ChatPostMessageAttachment)
    ensures
        a.fallback is None ==> !att_has_key(a, "fallback"@),
        a.color is None ==> !att_has_key(a, "color"@),
        a.pretext is None ==> !att_has_key(a, "pretext"@),
        a.author_name is None ==> !att_has_key(a, "author_name"@),
        a.author_link is None ==> !att_has_key(a, "author_link"@),
        a.author_icon is None ==> !att_has_key(a, "author_icon"@),
        a.title is None ==> !att_has_key(a, "title"@),
        a.title_link is None ==> !att_has_key(a, "title_link"@),
        a.text is None ==> !att_has_key(a, "text"@),
        a.fields is None ==> !att_has_key(a, "fields"@),
        a.image_url is None ==> !att_has_key(a, "image_url"@),
        a.thumb_url is None ==> !att_has_key(a, "thumb_url"@),
        a.footer is None ==> !att_has_key(a, "footer"@),
        a.footer_icon is None ==> !att_has_key(a, "footer_icon"@),
        a.ts is None ==> !att_has_key(a, "ts"@),
{
    assert(a.fallback is None ==> !att_has_key(a, "fallback"@)) by {
        lemma_att_key_facts();
        lemma_attachment_keys(a, "fallback"@);
    }
    assert(a.color is None ==> !att_has_key(a, "color"@)) by {
        lemma_att_key_facts();
        lemma_attachment_keys(a, "color"@);
    }
    assert(a.pretext is None ==> !att_has_key(a, "pretext"@)) by {
        lemma_att_key_facts();
        lemma_attachment_keys(a, "pretext"@);
    }
    assert(a.author_name is None ==> !att_has_key(a, "author_name"@)) by {
        lemma_att_key_facts();
        lemma_attachment_keys(a, "author_name"@);
    }
    assert(a.author_link is None ==> !att_has_key(a, "author_link"@)) by {
        lemma_att_key_facts();
        lemma_attachment_keys(a, "author_link"@);
    }
    assert(a.author_icon is None ==> !att_has_key(a, "author_icon"@)) by {
        lemma_att_key_facts();
        lemma_attachment_keys(a, "author_icon"@);
    }
    assert(a.title is None ==> !att_has_key(a, "title"@)) by {
        lemma_att_key_facts();
        lemma_attachment_keys(a, "title"@);
    }
    assert(a.title_link is None ==> !att_has_key(a, "title_link"@)) by {
        lemma_att_key_facts();
        lemma_attachment_keys(a, "title_link"@);
    }
    assert(a.text is None ==> !att_has_key(a, "text"@)) by {
        lemma_att_key_facts();
        lemma_attachment_keys(a, "text"@);
    }
    assert(a.fields is None ==> !att_has_key(a, "fields"@)) by {
        lemma_att_key_facts();
        lemma_attachment_keys(a, "fields"@);
    }
    assert(a.image_url is None ==> !att_has_key(a, "image_url"@)) by {
        lemma_att_key_facts();
        lemma_attachment_keys(a, "image_url"@);
    }
    assert(a.thumb_url is None ==> !att_has_key(a, "thumb_url"@)) by {
        lemma_att_key_facts();
        lemma_attachment_keys(a, "thumb_url"@);
    }
    assert(a.footer is None ==> !att_has_key(a, "footer"@)) by {
        lemma_att_key_facts();
        lemma_attachment_keys(a, "footer"@);
    }
    assert(a.footer_icon is None ==> !att_has_key(a, "footer_icon"@)) by {
        lemma_att_key_facts();
        lemma_attachment_keys(a, "footer_icon"@);
    }
    assert(a.ts is None ==> !att_has_key(a, "ts"@)) by {
        lemma_att_key_facts();
        lemma_attachment_keys(a, "ts"@);
    }
}

/// Every set optional field does reach the payload: its key is present, as
/// is `channel` always.
pub proof fn lemma_set_fields_have_key(a: ChatPostMessageArguments)
    ensures
        payload_has_key(a, "channel"@),
        a.text is Some ==> payload_has_key(a, "text"@),
        a.blocks is Some ==> payload_has_key(a, "blocks"@),
        a.attachments is Some ==> payload_has_key(a, "attachments"@),
        a.icon_emoji is Some ==> payload_has_key(a, "icon_emoji"@),
        a.icon_url is Some ==> payload_has_key(a, "icon_url"@),
        a.link_names is Some ==> payload_has_key(a, "link_names"@),
        a.metadata is Some ==> payload_has_key(a, "metadata"@),
        a.mrkdwn is Some ==> payload_has_key(a, "mrkdwn"@),
        a.parse is Some ==> payload_has_key(a, "parse"@),
        a.reply_broadcast is Some ==> payload_has_key(a, "reply_broadcast"@),
        a.thread_ts is Some ==> payload_has_key(a, "thread_ts"@),
        a.username is Some ==> payload_has_key(a, "username"@),
{
    lemma_payload_keys(a, "channel"@);
    lemma_payload_keys(a, "text"@);
    lemma_payload_keys(a, "blocks"@);
    lemma_payload_keys(a, "attachments"@);
    lemma_payload_keys(a, "icon_emoji"@);
    lemma_payload_keys(a, "icon_url"@);
    lemma_payload_keys(a, "link_names"@);
    lemma_payload_keys(a, "metadata"@);
    lemma_payload_keys(a, "mrkdwn"@);
    lemma_payload_keys(a, "parse"@);
    lemma_payload_keys(a, "reply_broadcast"@);
    lemma_payload_keys(a, "thread_ts"@);
    lemma_payload_keys(a, "username"@);
}

} // verus!
