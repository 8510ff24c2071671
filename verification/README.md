# meibe_bot

A Discord bot that plays music in voice channels and posts pictures and
clips from a few web services. The crate is split in two:

- `src/` is the verified library. It holds every decision the bot makes:
  editing the track queue (move, remove, clear), building the embeds and
  messages it sends, classifying play requests (search words, track link,
  playlist link, Spotify link), reading Spotify track and playlist links,
  the page chosen in the queue menu, the download paths and texts of the
  video command, the yt-dlp command
  lines and the splitting of yt-dlp's output into lines, the addresses of
  the web services and the choices made among their answers, and the
  checks and plans of the voice commands. Each public function carries a
  contract; the queue edits, the queue pages, the now-playing player line
  and the cleaning of service answers come with proved laws.
- `app/` is the program around it: the Discord connection (poise and
  serenity), the voice calls (songbird), HTTP requests, running yt-dlp,
  JSON decoding, SQLite and float-valued settings such as the volume.

Calls into outside crates that the library makes (regular expressions,
URL parsing, random numbers) go through small trusted wrappers whose
contracts are stated next to them.

The bot has one `play` command: it classifies the request (search words,
track link, playlist link, Spotify link) and queues a search result, a
track or a whole playlist. A simpler play command that took web addresses
only is not part of the bot.
