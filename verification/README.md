# tedge_tb

ThingsBoard support for thin-edge.io, written in Verus: the logic is
verified against contracts stated over mathematical models (sequences of
characters and bytes), and the laws it keeps are proved.

Layout of `src/`:

- `text.rs`: splitting text on a separator, comparing text, replacing a
  pattern, rendering decimals.
- `topic.rs`: routing thin-edge.io topics to ThingsBoard topics
  (`map_to_tb_topic`, `map_to_prefixed_tb_topic`, `extract_device_name`)
  and the routing laws.
- `transformer.rs`: the `set-tb-topic` flow step.
- `schema.rs`: topic prefixes, entity identifiers and the MQTT topic schema.
- `converter.rs`: the converter and the built-in flow definition it installs.
- `bridge.rs`: the mosquitto bridge configuration of a ThingsBoard connection.
- `mapper.rs`: what the mapper starts (built-in bridge rules, cloud
  connection, input topics, converter).
- `connect.rs`: the decisions of `tedge connect tb` (bridge health check and
  X.509 provisioning) as step functions over the events of an MQTT session.

`app/` runs the MQTT sessions of `tedge connect tb` with `rumqttc` and hands
their events to the step functions of `connect.rs`.
