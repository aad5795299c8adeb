# Tripwire

A chat client in the style of Discord: servers with categories of text,
voice, stage, forum and media channels, direct messages, reactions, replies,
threads, attachments and voice sessions.

The state of the client and every rule that changes it live in the library
(`src/`), written in Verus with a contract on each function:

- `models`, `message`: users, servers, channels, messages, reactions.
- `store`: a map keyed by text, used for message histories and profiles.
- `app`: `TripwireApp`, the whole client state, with navigation, sending,
  editing, deleting, reactions, threads and voice controls.
- `auth`: signing in and out, and what is kept of a session.
- `upload`, `encoding`: turning a picked file into an attachment (Base64).
- `forum`, `members`, `voice`: what the channel views compute from the state.
- `mock_data`: the sample servers, conversations and histories.
- `text`, `screens`, `actions`: text helpers and interface enums.

Laws that span several operations (toggling twice restores, a sent message
reads back, a kept session restores the same user) are public proof
functions next to the functions they speak of.

`app/` is the program around it: the GPUI window and views, the file picker,
the clock, and the session file on disk (JSON through serde).
`tests/` runs the library on concrete values.
