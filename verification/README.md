# Accord

Accord bridges Discord and an HTTP server, its target. A message, a join or a connection on Discord
becomes a request to the target, with what is worth knowing of it in header fields. The body is the
contents of a message, and JSON for anything else: commands, joins and connections. The target's
response becomes a message, or other acts, on Discord.

`src/` is the logic of the bridge, verified with Verus: payloads with their paths and header fields,
commands, responses, acts, streams of acts, and ghosts. `src/laws.rs` and the functions named
`law_...` elsewhere state what holds across functions. What is believed without proof of the crates
that the library calls stands in `src/wire.rs` (header fields, media types, URIs), `src/command.rs`
(regular expressions), `src/discord.rs` (message flags and copies of what is carried along),
`src/stream.rs` (UTF-8) and `src/text.rs` (`String::push`).

`app/` is the program around it: connections, JSON, logging and the environment.

## Running

| Variable               | Meaning                                             |
| ---------------------- | --------------------------------------------------- |
| `DISCORD_TOKEN`        | the bot's token                                     |
| `ACCORD_TARGET`        | the base of the target's URLs                       |
| `ACCORD_BIND`          | where the reverse interface listens                 |
| `ACCORD_COMMAND_MATCH` | a pattern that a message matches if it is a command |
| `ACCORD_COMMAND_PARSE` | a pattern whose groups are the words of a command   |

With `(?:^~|\s+)(\w+)` as both patterns, `~command sub command` goes to
`/command/command/sub/command`.

A response without a length may bring several acts. An act ends at a line feed, or at two null bytes
in a row; a null byte by itself only keeps the response alive.
