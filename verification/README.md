# p2p_rust

A libp2p chat node. `src/` is the verified library: the length-prefixed
framing of chat requests and responses (`utils::frame`, `utils::chat`) and
the node's answer to chat events (`utils::behaviour`). `app/` holds the node
itself: the libp2p swarm, the stream I/O of the codec, the serde forms of the
messages and the event loop.
