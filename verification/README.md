# sparklers

A binding to Sparkle, the macOS software update framework, split in two.

- `src/` is the verified library (Verus). It holds everything the binding
  decides on its own: decoding the updater's callback codes, the data of
  appcast items and updater errors, the delegate's settings store, feed URL
  validation (through the `url` crate), the startup decisions (bundle
  identifier check, required Info.plist keys, the outcome of starting the
  updater), and the build-script logic that finds `Sparkle.framework` and
  writes Cargo's link directives.
- `app/` is ordinary Rust around it: the Objective-C class declarations, the
  delegate object Sparkle calls back, the main-thread `Sparkle` handle, the
  event type, the error type with its `Display`, and the build-script entry
  points that read the environment and the file system. It needs an Apple
  target to build.
- `tests/` exercises the library on concrete values.
