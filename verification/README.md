# crates-io-cn

A mirror of crates.io on an object store. It hands out crates while it fetches
them, stores them in a bucket, enters them in a search index and follows the
crate index.

- `src/` is the library: what is decided, signed, compared and put together.
  Its functions are verified with Verus against their contracts. Trusted, and
  not verified, are the wrappers of calls into other crates (in `buffer`,
  `clock`, `digest`, `json` and `weburl`, each marked `external_body`) and the
  specifications of `String::push` and `str::trim` in `text`: their contracts
  are taken from the sources and the documentation of what they call.
  - `bos`: buckets, credentials and the signed requests to the object store
  - `digest`: message authentication codes, digests and their text encodings
  - `crate_req`: requests for crates, their keys and their index documents
  - `krate`: active downloads, what has been received and how it is passed on
  - `transfer`: the steps from the source to the store and the search index
  - `search`, `elastic`: questions to the search index and its answers
  - `easy_git`: merging and pushing the crate index, and finding credentials
  - `schedule`, `status`: when the index is updated and in what order it is gone
    through, and the report on it
  - `alike`, `table`, `text`: comparing, keeping and writing values
  - `buffer`, `clock`, `json`, `weburl`: what is used of other crates
- `tests/` runs the library on concrete values.
- `app/` is the program: the server, the network, git and the file system.

The program reads its settings from the environment, or from a file `.env`, and
its log configuration from `config/log4rs.yml`. With `--sync-all` it downloads
everything in the index, and with `--init-elastic` it creates the search index
and leaves.
