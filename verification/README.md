# screen_context

Screen context for dictation: what the screen shows is captured, recognized, cleaned and
put into the system prompt of a language model, as data and never as an instruction.

`src/` is the library. Its functions are verified with Verus against the contracts that
they carry, and its `law_*` functions state what holds of them together.

- `strings`: text helpers on characters, with their meaning as spec functions.
- `types`: preferences and choices.
- `polish::envelope`: the XML envelope round screen text, and the neutralizing of tags.
- `polish::prompt_compose`: premises, blocks and system prompts.
- `ocr`: the choice of an engine, and the course from a capture to a text.
- `ocr::capture`, `ocr::scaling`: what is captured, how it is scaled and encoded.
- `ocr::preprocess`: grey levels and contrast.
- `ocr::recognition`, `ocr::winrt`, `ocr::disabled`: the courses of a recognition.
- `ocr::rapidocr`, `ocr::download`: model files, their configuration and their download.
- `ocr::clean`: which recognized lines are kept, and how.
- `screen_context`, `commands`: what a dictation and the settings page ask for.

Work that waits for the outside world (a screenshot, a download, an inference) is a state
machine in the library: a `step` takes what happened and says what is to be done next.
`app/` runs these machines with xcap, reqwest, ONNX Runtime and the OCR of Windows.

Calls into other crates stand behind small functions marked `external_body`; the comment
above each says what is taken on trust.
