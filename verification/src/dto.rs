//! The data shapes of the platform's request/response API.
//!
//! These carry plain values only.  The transport layer around the library
//! owns the wire (de)serialisation and converts to and from these shapes.

use vstd::prelude::*;

verus! {

/// A user record as the platform returns it.
#[derive(Debug, Clone)]
pub struct UserResponse {
    pub id: String,
    pub username: String,
    pub discriminator: String,
    pub avatar: Option<String>,
    pub bot: bool,
    pub global_name: Option<String>,
}

/// An error message from the platform.
#[derive(Debug, Clone)]
pub struct ErrorResponse {
    pub message: String,
}

/// A guild record.
#[derive(Debug, Clone)]
pub struct GuildResponse {
    pub id: String,
    pub name: String,
    pub icon: Option<String>,
    pub owner: bool,
    pub permissions: Option<String>,
    pub features: Vec<String>,
    pub description: Option<String>,
    pub splash: Option<String>,
    pub banner: Option<String>,
}

/// One permission overwrite of a channel.
#[derive(Debug, Clone)]
pub struct PermissionOverwriteDto {
    pub id: String,
    pub overwrite_type: u8,
    pub allow: String,
    pub deny: String,
}

/// Thread metadata of a channel.
#[derive(Debug, Clone)]
pub struct ThreadMetadataDto {
    pub archived: bool,
    pub auto_archive_duration: i32,
    pub archive_timestamp: String,
    pub locked: bool,
    pub invitable: Option<bool>,
    pub create_timestamp: Option<String>,
}

/// A channel record.
#[derive(Debug, Clone)]
pub struct ChannelResponse {
    pub id: String,
    pub kind: u8,
    pub guild_id: Option<String>,
    pub name: Option<String>,
    pub owner_id: Option<String>,
    pub parent_id: Option<String>,
    pub position: i32,
    pub topic: Option<String>,
    pub last_message_id: Option<String>,
    pub message_count: Option<u32>,
    pub member_count: Option<u32>,
    pub applied_tags: Vec<String>,
    pub thread_metadata: Option<ThreadMetadataDto>,
    pub nsfw: bool,
    pub bitrate: Option<u32>,
    pub user_limit: Option<u32>,
    pub rate_limit_per_user: Option<u16>,
    pub flags: Option<u64>,
    pub permission_overwrites: Vec<PermissionOverwriteDto>,
    pub rtc_region: Option<String>,
    pub video_quality_mode: Option<u8>,
    pub default_auto_archive_duration: Option<u16>,
    pub last_pin_timestamp: Option<String>,
}

/// One reaction tally on a message.
#[derive(Debug, Clone)]
pub struct ReactionDto {
    pub count: u32,
    pub me: bool,
    pub emoji: ReactionEmojiDto,
}

/// The emoji of a reaction.
#[derive(Debug, Clone)]
pub struct ReactionEmojiDto {
    pub id: Option<String>,
    pub name: Option<String>,
}

/// A direct-message peer.
#[derive(Debug, Clone)]
pub struct DmRecipient {
    pub id: String,
    pub username: String,
    pub global_name: Option<String>,
}

/// A direct-message channel record.
#[derive(Debug, Clone)]
pub struct DmChannelResponse {
    pub id: String,
    pub kind: u8,
    pub recipients: Vec<DmRecipient>,
    pub last_message_id: Option<String>,
}

/// The author data on a message record.
#[derive(Debug, Clone)]
pub struct MessageAuthorResponse {
    pub id: String,
    pub username: String,
    pub discriminator: String,
    pub avatar: Option<String>,
    pub bot: bool,
    pub global_name: Option<String>,
}

/// An attachment on a message.
#[derive(Debug, Clone)]
pub struct AttachmentResponse {
    pub id: String,
    pub filename: String,
    pub size: u64,
    pub url: String,
    pub content_type: Option<String>,
    pub width: Option<u32>,
    pub height: Option<u32>,
    pub spoiler: bool,
}

/// The author block of an embed.
#[derive(Debug, Clone)]
pub struct EmbedAuthorDto {
    pub name: Option<String>,
    pub url: Option<String>,
    pub icon_url: Option<String>,
}

/// The footer block of an embed.
#[derive(Debug, Clone)]
pub struct EmbedFooterDto {
    pub text: String,
    pub icon_url: Option<String>,
}

/// One field of an embed.
#[derive(Debug, Clone)]
pub struct EmbedFieldDto {
    pub name: String,
    pub value: String,
    pub inline: bool,
}

/// The image block of an embed.
#[derive(Debug, Clone)]
pub struct EmbedImageDto {
    pub url: String,
    pub height: Option<u64>,
    pub width: Option<u64>,
}

/// The provider block of an embed.
#[derive(Debug, Clone)]
pub struct EmbedProviderDto {
    pub name: Option<String>,
    pub url: Option<String>,
}

/// The thumbnail block of an embed.
#[derive(Debug, Clone)]
pub struct EmbedThumbnailDto {
    pub url: String,
    pub height: Option<u64>,
    pub width: Option<u64>,
}

/// The video block of an embed.
#[derive(Debug, Clone)]
pub struct EmbedVideoDto {
    pub url: Option<String>,
    pub height: Option<u64>,
    pub width: Option<u64>,
}

/// An embed on a message.
#[derive(Debug, Clone)]
pub struct EmbedDto {
    pub title: Option<String>,
    pub description: Option<String>,
    pub url: Option<String>,
    pub color: Option<u32>,
    pub timestamp: Option<String>,
    pub provider: Option<EmbedProviderDto>,
    pub thumbnail: Option<EmbedThumbnailDto>,
    pub author: Option<EmbedAuthorDto>,
    pub footer: Option<EmbedFooterDto>,
    pub image: Option<EmbedImageDto>,
    pub video: Option<EmbedVideoDto>,
    pub fields: Vec<EmbedFieldDto>,
}

/// The reference a reply carries.
#[derive(Debug, Clone)]
pub struct MessageReferenceResponse {
    pub message_id: Option<String>,
    pub channel_id: Option<String>,
    pub guild_id: Option<String>,
}

/// The guild-member data sent with some message records.
#[derive(Debug, Clone)]
pub struct MemberResponse {
    pub color: Option<u32>,
}

/// A mentioned user on a message record.
#[derive(Debug, Clone)]
pub struct MentionUserResponse {
    pub id: String,
    pub username: String,
    pub discriminator: String,
    pub avatar: Option<String>,
    pub bot: bool,
    pub member: Option<MemberResponse>,
}

/// A message record.
#[derive(Debug)]
pub struct MessageResponse {
    pub id: String,
    pub channel_id: String,
    pub author: MessageAuthorResponse,
    pub content: String,
    pub timestamp: String,
    pub edited_timestamp: Option<String>,
    pub kind: u8,
    pub attachments: Vec<AttachmentResponse>,
    pub embeds: Vec<EmbedDto>,
    pub message_reference: Option<MessageReferenceResponse>,
    pub referenced_message: Option<Box<MessageResponse>>,
    pub pinned: bool,
    pub mentions: Vec<MentionUserResponse>,
    pub reactions: Vec<ReactionDto>,
    pub member: Option<MemberResponse>,
    pub flags: Option<u64>,
    pub tts: bool,
}

/// The threads listing of a channel or guild.
#[derive(Debug)]
pub struct ThreadsResponse {
    pub threads: Vec<ChannelResponse>,
    pub members: Vec<ThreadMemberResponse>,
    pub has_more: bool,
    pub first_messages: Option<Vec<MessageResponse>>,
    pub total_results: Option<u32>,
}

/// One member entry of a threads listing.
#[derive(Debug, Clone)]
pub struct ThreadMemberResponse {
    pub id: Option<String>,
    pub user_id: Option<String>,
    pub join_timestamp: String,
    pub flags: u64,
}

/// The body of a send-message request.
#[derive(Debug, Clone)]
pub struct SendMessagePayload {
    pub content: Option<String>,
    pub message_reference: Option<MessageReferencePayload>,
}

/// The reply reference of a send-message request.
#[derive(Debug, Clone)]
pub struct MessageReferencePayload {
    pub message_id: String,
}

/// The body of an edit-message request.
#[derive(Debug, Clone)]
pub struct EditMessagePayload {
    pub content: String,
}

} // verus!
