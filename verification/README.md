# minil

The request logic of a small S3-compatible object store, written in Verus and
proved against its contracts.

`src/` is the verified library:

- `handlers`: the decisions of the request handlers, each step between two
  database queries a function: `GetObject`/`HeadObject`, the four listings,
  `CompleteMultipartUpload`, and how a request's transaction ends.
- `routing`: which S3 operation a request calls, from its method, path and query.
- `requests`: checks on request input (expected owner, tag sets, the part list
  that completes a multipart upload, `Content-MD5`, unsupported features).
- `listing`: pages of listings fetched with one row of look-ahead, keys rolled
  up to common prefixes at a delimiter, next-page markers and `KeyCount`.
- `versioning`: bucket versioning status, version lookup, version-row reuse
  and what deleting an object does.
- `reads`: what `GetObject`/`HeadObject` answer and which bytes of each stored
  chunk a byte range takes.
- `chunk_decoder`, `ingest`: cutting a part's bytes into chunks and the
  checksums (CRC-32, CRC-32C, CRC-64/NVME, SHA-1, SHA-256, MD5) of the part.
- `multipart`: the size, checksums, entity tag and layout of a completed
  multipart upload from its parts.
- `checksum`, `hexcode`, `content_type`, `uuid_ext`, `config`, `entity`:
  checksums, hexadecimal text, media types, seeded UUIDs, settings and the
  stored records, over the outside crates that compute them.

`app/` is the program around it: settings read from the environment, tracing
set-up, and a command that writes one part read from a file or standard input
and prints its chunks and checksums.
