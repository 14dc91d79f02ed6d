# microbin

The verified core of a small self-hosted pastebin and URL shortener.

- `src/text.rs`: character-level building blocks (decimal and hex digits,
  Unicode white space, trimming, ASCII lower case, splitting).
- `src/texts.rs`: the interface texts in English and Simplified Chinese.
- `src/i18n.rs`: choosing the interface language (cookie, `Accept-Language`),
  localized texts, relative times, read summaries, language-switch links and
  path encoding.
- `src/pasta.rs`: pastas, attachments, custom and generated keys, lookups by
  key, local-time stamps and escaped content.
- `src/language.rs`: safe redirects and the language switch.
- `src/create.rs`: building a new pasta from the upload form and adding it.
- `src/service.rs`: editing, reading, QR targets, removal, status and logins.
- `src/laws.rs`: properties that tie these functions together.
- `app/`: the actix-web side (requests, cookies, multipart upload, serde
  records), which Verus does not see.
