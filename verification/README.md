# personalproject

The logic of a desktop assistant (chat with a language model, hand gestures
seen by the webcam, file search and web search), written in Verus and proved
against its contracts.

- `src/llm.rs`: chat services and their configuration; the exact request
  (address, headers, JSON body) for each service, and how its reply and its
  failures are read.
- `src/gesture.rs`: gesture names, the keyboard and mouse events each gesture
  sends, the frame-by-frame tracker that makes a gesture act once it has been
  held for eight frames, the pixel layout the gesture model reads, preview
  frames, and the order in which cameras are tried.
- `src/agent.rs`: which files go into the document index and how much of each,
  where the index lives, web search addresses, and the refusals of the desktop
  actions.
- `src/json.rs`: JSON documents as the assistant reads them, and paths into them.
- `src/codec.rs`: JSON string escaping, URL encoding, base64 and HTTP status
  text, each stated exactly and delegated to serde_json, urlencoding, base64 and
  reqwest.
- `app/`: the desktop program around the library: HTTP, files, the camera, the
  gesture model, the embedding model, keyboard and mouse, and the window.
