# rusty_dlp_bot

A Telegram bot that downloads videos and audio (through yt-dlp) for links
posted in chats. The decisions it makes are a verified library:

- `src/config.rs`: which links are fetched unasked, and as video or audio;
- `src/links.rs`, `src/routing.rs`: finding the link of a message or command;
- `src/handlers.rs`, `src/guest.rs`: what each handler does with a message,
  including the guest-query conversation as a state machine;
- `src/ytdlp.rs`: the yt-dlp command line and its failure text;
- `src/error.rs`, `src/media.rs`, `src/text.rs`: errors, media kinds, strings.

`app/` holds the executable: configuration loading, the chat service calls,
running yt-dlp and the dispatcher.
