use voice_rooms::config::BotConfig;
use voice_rooms::handler::{plan_reply, plan_voice_actions, personal_channel_name, VoiceTransition};
use voice_rooms::registry::ChannelRegistry;
use voice_rooms::snapshot::GuildSnapshot;

const GUILD: u64 = 191237328927195147;
const TRIGGER: u64 = 1026145931298619543;

fn snapshot(guild_id: u64, channels: Vec<Option<u64>>) -> GuildSnapshot {
    GuildSnapshot { guild_id, voice_channels: channels }
}

#[test]
fn trigger_arrival_creates_named_channel() {
    let config = BotConfig::defaults();
    let registry = ChannelRegistry::new();
    let snap = snapshot(GUILD, vec![Some(TRIGGER)]);
    let t = VoiceTransition::from_event(None, Some(TRIGGER), Some("A".to_string()), GUILD);
    let plan = plan_voice_actions(&config, &registry, &snap, &t);
    assert_eq!(plan.create_channel_name, Some("🔰 Salon de A".to_string()));
    assert_eq!(plan.delete_channel_id, None);
}

#[test]
fn creation_path_registers_new_channel() {
    let config = BotConfig::defaults();
    let mut registry = ChannelRegistry::new();
    let snap = snapshot(GUILD, vec![Some(TRIGGER)]);
    let t = VoiceTransition::from_event(None, Some(TRIGGER), Some("A".to_string()), GUILD);
    let plan = plan_voice_actions(&config, &registry, &snap, &t);
    assert!(plan.create_channel_name.is_some());
    let created_id: u64 = 777;
    registry.register(created_id);
    assert!(registry.contains(created_id));
    assert_eq!(registry.len(), 1);
}

#[test]
fn wrong_guild_creates_nothing() {
    let config = BotConfig::defaults();
    let registry = ChannelRegistry::new();
    let other_guild: u64 = 1;
    let snap = snapshot(other_guild, vec![Some(TRIGGER)]);
    let t = VoiceTransition::from_event(None, Some(TRIGGER), Some("A".to_string()), other_guild);
    let plan = plan_voice_actions(&config, &registry, &snap, &t);
    assert_eq!(plan.create_channel_name, None);
}

#[test]
fn wrong_destination_creates_nothing() {
    let config = BotConfig::defaults();
    let registry = ChannelRegistry::new();
    let snap = snapshot(GUILD, vec![Some(5)]);
    let t = VoiceTransition::from_event(None, Some(5), Some("A".to_string()), GUILD);
    let plan = plan_voice_actions(&config, &registry, &snap, &t);
    assert_eq!(plan.create_channel_name, None);
}

#[test]
fn disconnect_creates_nothing() {
    let config = BotConfig::defaults();
    let registry = ChannelRegistry::new();
    let snap = snapshot(GUILD, vec![]);
    let t = VoiceTransition::from_event(Some(5), None, Some("A".to_string()), GUILD);
    let plan = plan_voice_actions(&config, &registry, &snap, &t);
    assert_eq!(plan.create_channel_name, None);
}

#[test]
fn occupant_count_zero() {
    let snap = snapshot(GUILD, vec![Some(2), None, Some(3)]);
    assert_eq!(snap.connections_count(9), 0);
}

#[test]
fn occupant_count_one() {
    let snap = snapshot(GUILD, vec![Some(2), None, Some(9), Some(3)]);
    assert_eq!(snap.connections_count(9), 1);
}

#[test]
fn occupant_count_many() {
    let snap = snapshot(GUILD, vec![Some(9), Some(2), Some(9), None, Some(9)]);
    assert_eq!(snap.connections_count(9), 3);
}

#[test]
fn occupant_count_empty_snapshot() {
    let snap = snapshot(GUILD, vec![]);
    assert_eq!(snap.connections_count(9), 0);
}

#[test]
fn registered_empty_channel_is_deleted() {
    let config = BotConfig::defaults();
    let mut registry = ChannelRegistry::new();
    let ephemeral: u64 = 42;
    registry.register(ephemeral);
    let snap = snapshot(GUILD, vec![Some(7), None]);
    let t = VoiceTransition::from_event(Some(ephemeral), None, Some("A".to_string()), GUILD);
    let plan = plan_voice_actions(&config, &registry, &snap, &t);
    assert_eq!(plan.delete_channel_id, Some(ephemeral));
}

#[test]
fn deletion_confirmed_removes_from_registry() {
    let mut registry = ChannelRegistry::new();
    let ephemeral: u64 = 42;
    registry.register(ephemeral);
    assert!(registry.contains(ephemeral));
    registry.remove(ephemeral);
    assert!(!registry.contains(ephemeral));
    assert_eq!(registry.len(), 0);
}

#[test]
fn registered_occupied_channel_is_kept() {
    let config = BotConfig::defaults();
    let mut registry = ChannelRegistry::new();
    let ephemeral: u64 = 42;
    registry.register(ephemeral);
    let snap = snapshot(GUILD, vec![Some(ephemeral)]);
    let t = VoiceTransition::from_event(Some(ephemeral), None, Some("B".to_string()), GUILD);
    let plan = plan_voice_actions(&config, &registry, &snap, &t);
    assert_eq!(plan.delete_channel_id, None);
}

#[test]
fn unregistered_empty_channel_is_kept() {
    let config = BotConfig::defaults();
    let registry = ChannelRegistry::new();
    let never_registered: u64 = 13;
    let snap = snapshot(GUILD, vec![Some(7)]);
    let t = VoiceTransition::from_event(Some(never_registered), None, Some("A".to_string()), GUILD);
    let plan = plan_voice_actions(&config, &registry, &snap, &t);
    assert_eq!(plan.delete_channel_id, None);
}

#[test]
fn move_between_ordinary_channels_plans_nothing() {
    let config = BotConfig::defaults();
    let registry = ChannelRegistry::new();
    let snap = snapshot(GUILD, vec![Some(8), Some(8)]);
    let t = VoiceTransition::from_event(Some(7), Some(8), Some("A".to_string()), GUILD);
    let plan = plan_voice_actions(&config, &registry, &snap, &t);
    assert_eq!(plan.create_channel_name, None);
    assert_eq!(plan.delete_channel_id, None);
}

#[test]
fn ping_gets_exactly_pong() {
    let config = BotConfig::defaults();
    assert_eq!(plan_reply(&config, "!ping"), Some("Pong!".to_string()));
}

#[test]
fn pingpong_gets_no_reply() {
    let config = BotConfig::defaults();
    assert_eq!(plan_reply(&config, "!pingpong"), None);
}

#[test]
fn other_content_gets_no_reply() {
    let config = BotConfig::defaults();
    assert_eq!(plan_reply(&config, ""), None);
    assert_eq!(plan_reply(&config, "ping"), None);
    assert_eq!(plan_reply(&config, "!ping "), None);
}

#[test]
fn register_is_idempotent() {
    let mut registry = ChannelRegistry::new();
    registry.register(5);
    registry.register(5);
    assert_eq!(registry.len(), 1);
    assert!(registry.contains(5));
}

#[test]
fn remove_of_absent_id_changes_nothing() {
    let mut registry = ChannelRegistry::new();
    registry.register(5);
    registry.remove(6);
    assert_eq!(registry.len(), 1);
    assert!(registry.contains(5));
}

#[test]
fn fresh_registry_is_empty() {
    let registry = ChannelRegistry::new();
    assert_eq!(registry.len(), 0);
    assert!(!registry.contains(0));
}

#[test]
fn missing_member_falls_back_to_unknown() {
    let t = VoiceTransition::from_event(None, Some(TRIGGER), None, GUILD);
    assert_eq!(t.user_display_name, "Unknown".to_string());
}

#[test]
fn channel_name_concatenates_prefix_and_user() {
    let config = BotConfig::defaults();
    assert_eq!(personal_channel_name(&config, "Zoe"), "🔰 Salon de Zoe".to_string());
    assert_eq!(personal_channel_name(&config, ""), "🔰 Salon de ".to_string());
}

#[test]
fn default_config_values() {
    let config = BotConfig::defaults();
    assert_eq!(config.target_guild_id, GUILD);
    assert_eq!(config.trigger_channel_id, TRIGGER);
    assert_eq!(config.name_prefix, "🔰 Salon de ".to_string());
    assert_eq!(config.command_trigger, "!ping".to_string());
    assert_eq!(config.command_reply, "Pong!".to_string());
}
