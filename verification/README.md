# nail_salon

Backend of a nail salon's booking service: social sign-in with Naver and
Kakao, services and their categories, bookings and the day's free slots,
payments through NaverPay and KakaoPay with refunds, and the shop's
settings and closed days.

## Layout

- `src/` is the library, verified with Verus. It holds the domain's rules
  as functions on plain values with their contracts: booking statuses and
  who may cancel, the day's slots, payment and refund decisions, the
  messages exchanged with the payment gateways, the encryption and hashing
  of social identifiers and refresh tokens, access decisions, and the
  settings read from the environment. Calls into chrono, sha2, hex, base64,
  aes-gcm, rand and uuid go through small trusted functions whose contracts
  say what the library relies on.
- `tests/` runs the library on concrete values.
- `app/` is the server around it: the HTTP routes (axum), the database
  (sqlx on PostgreSQL), the calls to the gateways and the social providers
  (reqwest), JSON Web Tokens, and the program's entry point.
