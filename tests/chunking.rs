use hourai_actions::chunker::{ChunkQueue, ChunkerMessage};
use hourai_actions::components::{custom_id_metadata, proto_to_custom_id, ComponentError};
use hourai_actions::message::{CachedMessageProto, MessageLike};
use hourai_actions::text::{mention, message_link};

fn chunk(guild_id: u64, chunk_count: u32, chunk_index: u32) -> ChunkerMessage {
    ChunkerMessage::GuildChunk { guild_id, chunk_count, chunk_index }
}

#[test]
fn first_guild_is_chunked_at_once() {
    let mut q = ChunkQueue::new();
    assert_eq!(q.on_message(ChunkerMessage::Guild(1)), Some(1));
}

#[test]
fn later_guilds_wait_once_each() {
    let mut q = ChunkQueue::new();
    assert_eq!(q.on_message(ChunkerMessage::Guild(1)), Some(1));
    assert_eq!(q.on_message(ChunkerMessage::Guild(2)), None);
    assert_eq!(q.on_message(ChunkerMessage::Guild(2)), None);
    assert_eq!(q.on_message(ChunkerMessage::Guild(3)), None);
    // Guild 1 has two chunks.
    assert_eq!(q.on_message(chunk(1, 2, 0)), None);
    assert_eq!(q.on_message(chunk(1, 2, 1)), Some(2));
    // Guild 2 has one chunk; guild 2 was queued only once.
    assert_eq!(q.on_message(chunk(2, 1, 0)), Some(3));
    assert_eq!(q.on_message(chunk(3, 1, 0)), None);
    // Idle again: the next guild starts at once.
    assert_eq!(q.on_message(ChunkerMessage::Guild(4)), Some(4));
}

#[test]
fn requeued_current_guild_is_chunked_again() {
    let mut q = ChunkQueue::new();
    assert_eq!(q.on_message(ChunkerMessage::Guild(1)), Some(1));
    assert_eq!(q.on_message(ChunkerMessage::Guild(1)), None);
    assert_eq!(q.on_message(chunk(1, 1, 0)), None);
    assert_eq!(q.on_message(ChunkerMessage::Guild(5)), None);
    assert_eq!(q.on_message(chunk(1, 1, 0)), Some(5));
}

#[test]
fn links_and_mentions() {
    assert_eq!(message_link(Some(1), 2, 3), "https://discord.com/channels/1/2/3");
    assert_eq!(message_link(None, 20, 30), "https://discord.com/channels/@me/20/30");
    assert_eq!(mention(18446744073709551615), "<@18446744073709551615>");
    let m = CachedMessageProto { id: 9, channel_id: 8, guild_id: Some(7), content: "x".to_string() };
    assert_eq!(m.message_link(), "https://discord.com/channels/7/8/9");
    assert_eq!(m.content(), "x");
    assert_eq!((m.id(), m.channel_id(), m.guild_id()), (9, 8, Some(7)));
}

#[test]
fn custom_ids_round_trip() {
    let id = proto_to_custom_id(&vec![1, 2, 3, 4]);
    assert_eq!(id, "AQIDBA==");
    assert_eq!(proto_to_custom_id(&vec![]), "");
    assert_eq!(custom_id_metadata(&id), Ok(vec![1, 2, 3, 4]));
    assert_eq!(custom_id_metadata("not base64!"), Err(ComponentError::InvalidCustomId));
}
