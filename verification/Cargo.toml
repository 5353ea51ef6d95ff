[package]
name = "bevy_2d_menu_mask_transition"
version = "0.1.0"
edition = "2021"
publish = false

[dependencies]
bevy_app = "0.14"
bevy_asset = "0.14"
bevy_ecs = "0.14"
bevy_hierarchy = "0.14"
bevy_log = "0.14"
bevy_reflect = "0.14"
bevy_state = "0.14"
bevy_time = "0.14"
bevy_utils = "0.14"
bevy_window = "0.14"
