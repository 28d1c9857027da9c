# api_temple

An ID-photo web service. `src/` is the verified library (Verus): bearer-token
authentication, registration and login decisions, image content-type checks,
and the gathering and storing of ID-photo processing requests. `app/` is the
axum server around it: routes, database queries, multipart reading, the call
to the photo-processing service and file writes.

- `src/auth.rs` — `Authorization` header parsing, token checking and issuing
- `src/user.rs` — registration and login steps, bcrypt hashing
- `src/app_state.rs` — shared state and its random signing secret
- `src/image.rs`, `src/idphoto.rs` — upload checks, form gathering, file names
- `src/errors.rs`, `src/text.rs` — statuses, errors, string helpers
