# kloakt

The verified core of the `kloakt` headless-browser command line.

`src/` is checked by Verus:

- `text`: Unicode white space, trimming, joining and decimal numerals over
  `String` views.
- `dom`: a page's node tree and its readable text (the `text` dumps).
- `links`: the link listing, with targets resolved against the page URL.
- `extract`: the `extract` content: main-content choice, the metadata
  fallback for pages that yield little text, and the `--max-chars` cap.
- `scrape`: the line protocol with scrape workers as a state machine, and
  the result records and text lines.
- `serve`: worker ports and arguments, round-robin routing and `/json`
  request detection for `serve --workers`.
- `fetch`: the selector wait, HTML dumps and the start-up banner.

`app/` is the command line itself: arguments, the browser, processes,
sockets, JSON output and printing.
