# priceinfo

A chat bot command that reports the price of a token pair listed on the
dexscreener service, with its core verified in Verus.

- `src/` is the verified library: the chains users pick from and how their
  names are parsed (`chain`), the description of the slash command
  (`command`), reading the command's options (`request`), the request flow
  from asking the service to the reply (`flow`), the reply texts for a pair
  (`pair`), a `serde_json` lookup behind a trusted wrapper (`json`) and the
  bot's log and error lines (`notice`).
- `app/` runs the bot: the chat service, the HTTP requests, the JSON body
  and the floating-point price figures.
- `tests/` runs the library on concrete values.
