[package]
name = "mqtt_broker_core"
version = "0.1.0"
edition = "2021"
publish = false

[dependencies]
mqtt_packet_3_5 = "*"
