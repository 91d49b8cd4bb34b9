# froggi

A scoreboard overlay server for sports broadcasts. The library in `src/` holds
the server's logic with Verus contracts: OCR score reports, the API key and
login rules, bundled asset lookup, team presets and their colours, sponsor
images, the HTML fragments the handlers return, and the self-update and
shutdown decisions. `app/` is the HTTP server around it (axum and tokio): it
reads requests and files, calls the library, and sends the answers.

- `src/text.rs` — string helpers and unsigned decimal parsing
- `src/json.rs` — JSON objects of strings (serde_json)
- `src/ocr.rs` — OCR reports applied to the scoreboard, the OCR switch
- `src/auth.rs` — credentials, login creation and checks (Argon2), token cookies, access guards
- `src/assets.rs` — media types and the bundled asset archive (tar)
- `src/images.rs` — logos, sponsor images, Base64
- `src/teams.rs` — team presets, colours, preset download and import (gzip, tar)
- `src/pages.rs` — HTML fragments, headers and storage paths
- `src/tokens.rs` — random identifiers and keys
- `src/updates.rs` — the published version, update requests, the update box, exit codes

The server expects its pages under `./html` and the asset archive at
`./build-tmp/local-assets.tar`.
