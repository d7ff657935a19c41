# sned-server

The server component of sned, which passes encrypted files from user to user.

`src/` is the verified library: the rules of the server. Every request is a
machine that asks for one piece of outside work at a time and is resumed with
what came of it. `app/` is the program around it: HTTP, PostgreSQL and the file
system. `tests/` runs the library, on a database and a disk that the tests keep
in memory.

| Module | What it holds |
| ------ | ------------- |
| `text`, `time`, `fresh`, `settings` | plain values, the clock, chance, and the environment |
| `models`, `payloads`, `responses` | rows, requests and answers |
| `statements`, `tasks` | the outside work that machines ask for |
| `actions` | the actions on the database |
| `auth`, `sign_in` | authenticators and signatures |
| `requests` | register, lookup, authenticator, inbox, list-users |
| `frame`, `upload`, `delivery`, `transfer` | uploads |
| `download`, `cleanup` | downloads, and clearing away what has expired |
| `tables`, `world` | what the machines act on, as a model |
| `laws` | what holds of whole runs |

## Settings

| Variable | Description |
| -------- | ----------- |
| DATABASE_URL | The postgres database URL the server will use |
| STORAGE_DIR | File path where uploaded files will be stored |
| REQUIRE_APPROVAL | Specifies whether the "approved" column must manually be set to `true` for each user to allow them to upload |
| DEFAULT_FILE_LIFETIME_MINS | How long uploaded files will live |
| DEFAULT_QUOTA_BYTES | Default allotted number of bytes that each user can upload to the server |
